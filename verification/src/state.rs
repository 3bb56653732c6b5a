//! The command queue and dispatcher. A request that comes in is queued, and
//! the host is asked for a fresh client list. Each client list that arrives
//! says which program owns the focused pane, and lets the oldest request
//! that waits go out: as keystrokes where a modal editor owns the pane, as
//! a native action of the host otherwise.
//!
//! `StateView` is the model: a state, with `pipe`, `update` and `load` as
//! functions from a state and an input to the next state and the actions
//! asked of the host. `State` is the state that runs, and each of its
//! methods does what the model says.

use crate::command::{command_of, parse_command, Command, PipeMessage, PipeMessageView};
use crate::config::{
    lemma_resolved_wf, lookup, option_value, option_views, resolved, ConfigError, ConfigErrorView,
    SettingsView,
};
use crate::focus::{
    focus_owner, is_editor, is_editor_name, term_command_from_client_list, ClientInfoView,
};
use crate::host::{
    action_view, action_views, Action, ActionView, Event, EventKind, EventView, Permission,
    PermissionStatus,
};
use crate::keys::{encode, encoding};
use crate::modifier::{first_invalid, modifiers_in, Mod};
use crate::text::{
    fields, lemma_fields_nonempty, split, str_equal, text_view, to_lowercase, trim, trimmed,
};
use std::collections::VecDeque;
use vstd::prelude::*;

verus! {

/// The model of a `State`.
pub struct StateView {
    /// Whether the host has granted the permissions asked for.
    pub permissions_granted: bool,
    /// The program in the focused pane, as the last client list gave it.
    pub current_term_command: Option<Seq<char>>,
    /// The requests that wait, oldest first.
    pub command_queue: Seq<Command>,
    /// The settings in force.
    pub settings: SettingsView,
}

impl StateView {
    /// The state before anything has happened.
    pub open spec fn initial() -> StateView {
        StateView {
            permissions_granted: false,
            current_term_command: None,
            command_queue: Seq::empty(),
            settings: SettingsView::initial(),
        }
    }

    /// Whether a modal editor is known to own the focused pane.
    pub open spec fn pane_is_vim(self) -> bool {
        is_editor(self.current_term_command)
    }

    /// The characters that stand for `command` as a key press.
    pub open spec fn keybind(self, command: Command) -> Seq<char> {
        encoding(
            command.direction(),
            self.settings.modifiers_for(command),
            self.settings.use_arrow_keys,
        )
    }

    /// What the host is asked to do for `command`: to write the key press
    /// where a modal editor owns the focused pane, else to move the focus
    /// or to grow the pane itself.
    pub open spec fn execute(self, command: Command) -> ActionView {
        if self.pane_is_vim() {
            ActionView::WriteChars(self.keybind(command))
        } else {
            match command {
                Command::MoveFocus(d) => ActionView::MoveFocus(d),
                Command::MoveFocusOrTab(d) => ActionView::MoveFocusOrTab(d),
                Command::Resize(d) => ActionView::ResizeIncrease(d),
            }
        }
    }

    /// The state with `command` as the youngest request that waits.
    pub open spec fn handle_command(self, command: Command) -> StateView {
        StateView { command_queue: self.command_queue.push(command), ..self }
    }

    /// The state with `owner` as the program in the focused pane.
    pub open spec fn with_owner(self, owner: Option<Seq<char>>) -> StateView {
        StateView { current_term_command: owner, ..self }
    }

    /// What a message does: where it asks for a command, that command is
    /// queued and the host is asked for the client list; any other message
    /// changes nothing.
    pub open spec fn pipe(self, message: PipeMessageView) -> (StateView, Option<ActionView>) {
        match command_of(message) {
            Some(command) => (self.handle_command(command), Some(ActionView::ListClients)),
            None => (self, None),
        }
    }

    /// What an event does. A client list sets the program in the focused
    /// pane, and lets the oldest request that waits go out, judged by that
    /// program. The answer to the request for permissions is noted, and the
    /// library's own pane is hidden where they were granted. Any other
    /// event changes nothing.
    pub open spec fn update(self, event: EventView) -> (StateView, Option<ActionView>) {
        match event {
            EventView::ListClients(clients) => {
                let fresh = self.with_owner(focus_owner(clients));
                if fresh.command_queue.len() > 0 {
                    (
                        StateView { command_queue: fresh.command_queue.skip(1), ..fresh },
                        Some(fresh.execute(fresh.command_queue[0])),
                    )
                } else {
                    (fresh, None)
                }
            },
            EventView::PermissionRequestResult(status) => {
                let granted = status == PermissionStatus::Granted;
                (
                    StateView { permissions_granted: granted, ..self },
                    if granted {
                        Some(ActionView::HideSelf)
                    } else {
                        None
                    },
                )
            },
            EventView::Other => (self, None),
        }
    }

    /// The state with the settings that `options` resolve to, or the reason
    /// why they resolve to none.
    pub open spec fn parse_configuration(self, options: Seq<(Seq<char>, Seq<char>)>) -> Result<
        StateView,
        ConfigErrorView,
    > {
        match resolved(options) {
            Ok(settings) => Ok(StateView { settings, ..self }),
            Err(e) => Err(e),
        }
    }

    /// What the host is asked at the start: the three permissions, the two
    /// kinds of event, and to hide the library's own pane where the
    /// permissions are granted already.
    pub open spec fn load_actions(self) -> Seq<ActionView> {
        let first = seq![
            ActionView::RequestPermission(
                seq![
                    Permission::WriteToStdin,
                    Permission::ChangeApplicationState,
                    Permission::ReadApplicationState,
                ],
            ),
            ActionView::Subscribe(seq![EventKind::PermissionRequestResult, EventKind::ListClients]),
        ];
        if self.permissions_granted {
            first.push(ActionView::HideSelf)
        } else {
            first
        }
    }

    /// What loading does: the options are resolved into settings, and the
    /// host is asked what `load_actions` lists. Options that do not resolve
    /// are an error.
    pub open spec fn load(self, options: Seq<(Seq<char>, Seq<char>)>) -> Result<
        (StateView, Seq<ActionView>),
        ConfigErrorView,
    > {
        match self.parse_configuration(options) {
            Ok(next) => Ok((next, next.load_actions())),
            Err(e) => Err(e),
        }
    }
}

impl StateView {
    /// The state after one client list for each element of `lists` has
    /// arrived, in order.
    pub open spec fn after_refreshes(self, lists: Seq<Seq<ClientInfoView>>) -> StateView
        decreases lists.len(),
    {
        if lists.len() == 0 {
            self
        } else {
            self.after_refreshes(lists.drop_last()).update(EventView::ListClients(lists.last())).0
        }
    }
}

/// Something that comes in: a message from outside or an event of the host.
pub enum Input {
    Message(PipeMessageView),
    Event(EventView),
}

impl StateView {
    /// The state after `input` has come in.
    pub open spec fn step(self, input: Input) -> StateView {
        match input {
            Input::Message(message) => self.pipe(message).0,
            Input::Event(event) => self.update(event).0,
        }
    }

    /// The state after all of `inputs` have come in, in order.
    pub open spec fn run(self, inputs: Seq<Input>) -> StateView
        decreases inputs.len(),
    {
        if inputs.len() == 0 {
            self
        } else {
            self.run(inputs.drop_last()).step(inputs.last())
        }
    }

    /// The requests that went out while `inputs` came in, in the order in
    /// which they went out.
    pub open spec fn served(self, inputs: Seq<Input>) -> Seq<Command>
        decreases inputs.len(),
    {
        if inputs.len() == 0 {
            Seq::empty()
        } else {
            let before = self.served(inputs.drop_last());
            let reached = self.run(inputs.drop_last());
            match inputs.last() {
                Input::Event(EventView::ListClients(_)) => if reached.command_queue.len() > 0 {
                    before.push(reached.command_queue[0])
                } else {
                    before
                },
                _ => before,
            }
        }
    }
}

/// The requests that the messages among `inputs` ask for, in the order in
/// which they came.
pub open spec fn arrived(inputs: Seq<Input>) -> Seq<Command>
    decreases inputs.len(),
{
    if inputs.len() == 0 {
        Seq::empty()
    } else {
        let before = arrived(inputs.drop_last());
        match inputs.last() {
            Input::Message(message) => match command_of(message) {
                Some(command) => before.push(command),
                None => before,
            },
            Input::Event(_) => before,
        }
    }
}

/// Whatever comes in, and in whatever order: the requests that waited at
/// the start and those that came since are, in this order, the requests
/// that went out and then those that still wait. So requests go out in the
/// order in which they came, none is lost, and none goes out twice.
pub proof fn lemma_first_come_first_served(s: StateView, inputs: Seq<Input>)
    ensures
        s.command_queue + arrived(inputs) == s.served(inputs) + s.run(inputs).command_queue,
    decreases inputs.len(),
{
    let came = s.command_queue + arrived(inputs);
    let went = s.served(inputs) + s.run(inputs).command_queue;
    if inputs.len() > 0 {
        let before = inputs.drop_last();
        lemma_first_come_first_served(s, before);
        let waiting = s.run(before).command_queue;
        assert(s.command_queue + arrived(before) == s.served(before) + waiting);
        match inputs.last() {
            Input::Message(message) => match command_of(message) {
                Some(command) => {
                    assert(came =~= (s.command_queue + arrived(before)).push(command));
                    assert(went =~= (s.served(before) + waiting).push(command));
                },
                None => {},
            },
            Input::Event(EventView::ListClients(_)) => {
                if waiting.len() > 0 {
                    assert(went =~= s.served(before) + waiting);
                }
            },
            Input::Event(_) => {},
        }
    } else {
        assert(came =~= went);
    }
}

/// Of two requests that are queued with no client list in between, the one
/// client list that then arrives lets exactly the first go out, judged by
/// the program that this list gives, and the second waits for the next
/// client list.
pub proof fn lemma_queue_order(
    s: StateView,
    c1: Command,
    c2: Command,
    first: Seq<ClientInfoView>,
    second: Seq<ClientInfoView>,
)
    requires
        s.command_queue.len() == 0,
    ensures
        ({
            let queued = s.handle_command(c1).handle_command(c2);
            let (once, action1) = queued.update(EventView::ListClients(first));
            let (twice, action2) = once.update(EventView::ListClients(second));
            &&& action1 == Some(s.with_owner(focus_owner(first)).execute(c1))
            &&& once.command_queue == seq![c2]
            &&& once.current_term_command == focus_owner(first)
            &&& action2 == Some(s.with_owner(focus_owner(second)).execute(c2))
            &&& twice.command_queue.len() == 0
        }),
{
}

/// Requests go out in the order in which they came, one for each client
/// list: after as many client lists as there are requests before it, the
/// next client list lets the request at that place go out, judged by the
/// program that this list gives. None is skipped, and none goes out twice.
pub proof fn lemma_served_in_order(
    s: StateView,
    lists: Seq<Seq<ClientInfoView>>,
    clients: Seq<ClientInfoView>,
)
    requires
        lists.len() < s.command_queue.len(),
    ensures
        ({
            let reached = s.after_refreshes(lists);
            let (next, action) = reached.update(EventView::ListClients(clients));
            &&& reached.command_queue == s.command_queue.skip(lists.len() as int)
            &&& reached.settings == s.settings
            &&& action == Some(
                s.with_owner(focus_owner(clients)).execute(s.command_queue[lists.len() as int]),
            )
            &&& next.command_queue == s.command_queue.skip(lists.len() as int + 1)
        }),
    decreases lists.len(),
{
    if lists.len() > 0 {
        lemma_served_in_order(s, lists.drop_last(), lists.last());
    }
}

/// What goes out on a client list is judged by the program that this list
/// gives, never by what an earlier list gave.
pub proof fn lemma_stale_owner_is_not_used(
    s: StateView,
    stale: Option<Seq<char>>,
    clients: Seq<ClientInfoView>,
)
    ensures
        s.with_owner(stale).update(EventView::ListClients(clients)) == s.update(
            EventView::ListClients(clients),
        ),
{
}

/// Where the client list says that a modal editor owns the focused pane,
/// the request that goes out is written to the pane as its key press;
/// where it says anything else, or nothing, the host is asked to act.
pub proof fn lemma_editor_gets_keystrokes(s: StateView, clients: Seq<ClientInfoView>)
    requires
        s.command_queue.len() > 0,
    ensures
        is_editor(focus_owner(clients)) ==> s.update(EventView::ListClients(clients)).1 == Some(
            ActionView::WriteChars(s.keybind(s.command_queue[0])),
        ),
        !is_editor(focus_owner(clients)) ==> s.update(EventView::ListClients(clients)).1 == Some(
            match s.command_queue[0] {
                Command::MoveFocus(d) => ActionView::MoveFocus(d),
                Command::MoveFocusOrTab(d) => ActionView::MoveFocusOrTab(d),
                Command::Resize(d) => ActionView::ResizeIncrease(d),
            },
        ),
{
}

/// Loading is refused where an option that lists modifiers is given and
/// holds something else: the state stays as it was and the host is asked
/// nothing.
pub proof fn lemma_illegal_modifier_is_rejected(
    s: StateView,
    options: Seq<(Seq<char>, Seq<char>)>,
    value: Seq<char>,
)
    requires
        option_value(options, "move_mod"@) == Some(value) || option_value(options, "resize_mod"@)
            == Some(value),
        modifiers_in(value) is Err,
    ensures
        s.load(options) is Err,
        s.parse_configuration(options) is Err,
{
}

/// Messages and events leave the settings as they are, and the settings
/// that loading sets have at least one modifier for each key press.
pub proof fn lemma_settings_are_kept(
    s: StateView,
    message: PipeMessageView,
    event: EventView,
    options: Seq<(Seq<char>, Seq<char>)>,
)
    ensures
        StateView::initial().settings.wf(),
        s.pipe(message).0.settings == s.settings,
        s.update(event).0.settings == s.settings,
        s.load(options) matches Ok(loaded) ==> loaded.0.settings.wf(),
{
    lemma_resolved_wf(options);
}

/// The settings in force. Each of the two key presses has at least one
/// modifier.
pub struct Settings {
    move_mod: Vec<Mod>,
    resize_mod: Vec<Mod>,
    use_arrow_keys: bool,
}

impl View for Settings {
    type V = SettingsView;

    closed spec fn view(&self) -> SettingsView {
        SettingsView {
            move_mod: self.move_mod@,
            resize_mod: self.resize_mod@,
            use_arrow_keys: self.use_arrow_keys,
        }
    }
}

impl Default for Settings {
    fn default() -> (s: Settings)
        ensures
            s@ == SettingsView::initial(),
    {
        let mut move_mod: Vec<Mod> = Vec::new();
        move_mod.push(Mod::Ctrl);
        let mut resize_mod: Vec<Mod> = Vec::new();
        resize_mod.push(Mod::Alt);
        let s = Settings { move_mod, resize_mod, use_arrow_keys: false };
        s
    }
}

impl Settings {
    #[verifier::type_invariant]
    spec fn inv(self) -> bool {
        self.move_mod@.len() >= 1 && self.resize_mod@.len() >= 1
    }

    /// The modifiers of the key press that moves the focus: at least one.
    pub fn move_mod(&self) -> (r: &Vec<Mod>)
        ensures
            r@ == self@.move_mod,
            self@.wf(),
    {
        proof {
            use_type_invariant(self);
        }
        &self.move_mod
    }

    /// The modifiers of the key press that resizes: at least one.
    pub fn resize_mod(&self) -> (r: &Vec<Mod>)
        ensures
            r@ == self@.resize_mod,
            self@.wf(),
    {
        proof {
            use_type_invariant(self);
        }
        &self.resize_mod
    }

    /// Whether key presses are sent as arrow keys.
    pub fn use_arrow_keys(&self) -> (r: bool)
        ensures
            r == self@.use_arrow_keys,
    {
        self.use_arrow_keys
    }
}

/// The state of the library: what it knows of the host, the requests that
/// wait, and the settings.
pub struct State {
    permissions_granted: bool,
    current_term_command: Option<String>,
    command_queue: VecDeque<Command>,
    settings: Settings,
}

impl View for State {
    type V = StateView;

    closed spec fn view(&self) -> StateView {
        StateView {
            permissions_granted: self.permissions_granted,
            current_term_command: text_view(self.current_term_command),
            command_queue: self.command_queue@,
            settings: self.settings@,
        }
    }
}

impl Default for State {
    fn default() -> (s: State)
        ensures
            s@ == StateView::initial(),
    {
        let s = State {
            permissions_granted: false,
            current_term_command: None,
            command_queue: VecDeque::new(),
            settings: Settings::default(),
        };
        s
    }
}

impl State {
    /// Whether the host has granted the permissions asked for.
    pub fn permissions_granted(&self) -> (r: bool)
        ensures
            r == self@.permissions_granted,
    {
        self.permissions_granted
    }

    /// The program in the focused pane, as the last client list gave it.
    pub fn current_term_command(&self) -> (r: &Option<String>)
        ensures
            text_view(*r) == self@.current_term_command,
    {
        &self.current_term_command
    }

    /// The requests that wait, oldest first.
    pub fn command_queue(&self) -> (r: &VecDeque<Command>)
        ensures
            r@ == self@.command_queue,
    {
        &self.command_queue
    }

    /// The settings in force.
    pub fn settings(&self) -> (r: &Settings)
        ensures
            r@ == self@.settings,
            self@.settings.wf(),
    {
        proof {
            use_type_invariant(&self.settings);
        }
        &self.settings
    }

    /// Takes the options in, and says what to ask of the host at the start.
    /// Where the options do not resolve, nothing changes and nothing is
    /// asked.
    pub fn load(&mut self, configuration: Vec<(String, String)>) -> (r: Result<
        Vec<Action>,
        ConfigError,
    >)
        ensures
            match r {
                Ok(actions) => old(self)@.load(option_views(configuration@)) == Ok::<
                    (StateView, Seq<ActionView>),
                    ConfigErrorView,
                >((final(self)@, action_views(actions@))),
                Err(e) => old(self)@.load(option_views(configuration@)) == Err::<
                    (StateView, Seq<ActionView>),
                    ConfigErrorView,
                >(e@) && final(self)@ == old(self)@,
            },
            final(self)@.settings.wf(),
    {
        match self.parse_configuration(configuration) {
            Ok(()) => {},
            Err(e) => {
                return Err(e);
            },
        }
        let mut permissions: Vec<Permission> = Vec::new();
        permissions.push(Permission::WriteToStdin);
        permissions.push(Permission::ChangeApplicationState);
        permissions.push(Permission::ReadApplicationState);
        let mut kinds: Vec<EventKind> = Vec::new();
        kinds.push(EventKind::PermissionRequestResult);
        kinds.push(EventKind::ListClients);
        let mut actions: Vec<Action> = Vec::new();
        actions.push(Action::RequestPermission(permissions));
        actions.push(Action::Subscribe(kinds));
        if self.permissions_granted {
            actions.push(Action::HideSelf);
        }
        assert(action_views(actions@) =~= self@.load_actions()) by {
            assert(actions@[0]@ == self@.load_actions()[0]) by {
                assert(permissions@ =~= seq![
                    Permission::WriteToStdin,
                    Permission::ChangeApplicationState,
                    Permission::ReadApplicationState,
                ]);
            }
            assert(actions@[1]@ == self@.load_actions()[1]) by {
                assert(kinds@ =~= seq![EventKind::PermissionRequestResult, EventKind::ListClients]);
            }
        }
        Ok(actions)
    }

    /// Takes an event of the host in, and says what to ask of the host in
    /// answer, if anything.
    pub fn update(&mut self, event: Event) -> (action: Option<Action>)
        ensures
            final(self)@ == old(self)@.update(event@).0,
            action_view(action) == old(self)@.update(event@).1,
    {
        match event {
            Event::ListClients(list) => {
                self.current_term_command = term_command_from_client_list(list);
                match self.command_queue.pop_front() {
                    Some(command) => Some(self.execute_command(command)),
                    None => None,
                }
            },
            Event::PermissionRequestResult(permission) => {
                self.permissions_granted = match permission {
                    PermissionStatus::Granted => true,
                    PermissionStatus::Denied => false,
                };
                if self.permissions_granted {
                    Some(Action::HideSelf)
                } else {
                    None
                }
            },
            Event::Other => None,
        }
    }

    /// Takes a message from outside in. Where it asks for a command, the
    /// command is queued and the host is to be asked for the client list.
    pub fn pipe(&mut self, pipe_message: PipeMessage) -> (action: Option<Action>)
        ensures
            final(self)@ == old(self)@.pipe(pipe_message@).0,
            action_view(action) == old(self)@.pipe(pipe_message@).1,
    {
        match parse_command(pipe_message) {
            Some(command) => Some(self.handle_command(command)),
            None => None,
        }
    }

    /// Queues `command` behind the requests that wait, and says to ask the
    /// host for the client list.
    pub fn handle_command(&mut self, command: Command) -> (action: Action)
        ensures
            final(self)@ == old(self)@.handle_command(command),
            action@ == ActionView::ListClients,
    {
        self.command_queue.push_back(command);
        Action::ListClients
    }

    /// What to ask of the host for `command`, judged by the program that is
    /// known to own the focused pane.
    pub fn execute_command(&self, command: Command) -> (action: Action)
        ensures
            action@ == self@.execute(command),
    {
        if self.current_pane_is_vim() {
            return Action::WriteChars(self.command_to_keybind(&command));
        }
        match command {
            Command::MoveFocus(direction) => Action::MoveFocus(direction),
            Command::MoveFocusOrTab(direction) => Action::MoveFocusOrTab(direction),
            Command::Resize(direction) => Action::ResizeIncrease(direction),
        }
    }

    /// Whether a modal editor is known to own the focused pane.
    pub fn current_pane_is_vim(&self) -> (r: bool)
        ensures
            r == self@.pane_is_vim(),
    {
        if let Some(current_command) = &self.current_term_command {
            if is_editor_name(current_command.as_str()) {
                return true;
            }
        }
        false
    }

    /// Sets the settings to what the options resolve to. Where they do not
    /// resolve, nothing changes.
    pub fn parse_configuration(&mut self, configuration: Vec<(String, String)>) -> (r: Result<
        (),
        ConfigError,
    >)
        ensures
            match r {
                Ok(()) => old(self)@.parse_configuration(option_views(configuration@)) == Ok::<
                    StateView,
                    ConfigErrorView,
                >(final(self)@),
                Err(e) => old(self)@.parse_configuration(option_views(configuration@)) == Err::<
                    StateView,
                    ConfigErrorView,
                >(e@) && final(self)@ == old(self)@,
            },
            final(self)@.settings.wf(),
    {
        proof {
            use_type_invariant(&self.settings);
        }
        let move_mod = match lookup(&configuration, "move_mod") {
            Some(f) => match Self::parse_modifiers(f) {
                Ok(modifiers) => modifiers,
                Err(reason) => {
                    return Err(ConfigError::MoveMod(reason));
                },
            },
            None => {
                let mut modifiers: Vec<Mod> = Vec::new();
                modifiers.push(Mod::Ctrl);
                modifiers
            },
        };
        let resize_mod = match lookup(&configuration, "resize_mod") {
            Some(f) => match Self::parse_modifiers(f) {
                Ok(modifiers) => modifiers,
                Err(reason) => {
                    return Err(ConfigError::ResizeMod(reason));
                },
            },
            None => {
                let mut modifiers: Vec<Mod> = Vec::new();
                modifiers.push(Mod::Alt);
                modifiers
            },
        };
        let use_arrow_keys = match lookup(&configuration, "use_arrow_keys") {
            Some(v) => str_equal(to_lowercase(v).as_str(), "true"),
            None => false,
        };
        self.settings = Settings { move_mod, resize_mod, use_arrow_keys };
        Ok(())
    }

    /// Reads a list of modifiers written as `a+b+c`: at least one, since a
    /// text without `+` is one piece. White space around a piece does not
    /// count, nor does the case of its letters.
    pub fn parse_modifiers(input: &str) -> (r: Result<Vec<Mod>, String>)
        ensures
            match r {
                Ok(mods) => modifiers_in(input@) == Ok::<Seq<Mod>, Seq<char>>(mods@) && mods@.len()
                    >= 1,
                Err(e) => modifiers_in(input@) == Err::<Seq<Mod>, Seq<char>>(e@),
            },
    {
        let pieces = split(input, '+');
        let ghost ps = fields(input@, '+');
        let mut mods: Vec<Mod> = Vec::new();
        let mut k: usize = 0;
        while k < pieces.len()
            invariant
                ps == fields(input@, '+'),
                pieces@.len() == ps.len(),
                forall|j: int| 0 <= j < pieces@.len() ==> (#[trigger] pieces@[j])@ == ps[j],
                k <= pieces.len(),
                mods@.len() == k,
                first_invalid(ps, 0) == first_invalid(ps, k as int),
                forall|j: int|
                    0 <= j < k ==> Mod::parsed(trimmed(ps[j])) == Some(#[trigger] mods@[j]),
            decreases pieces.len() - k,
        {
            let piece: &str = pieces[k];
            match Mod::from_str(trim(piece)) {
                Ok(m) => {
                    mods.push(m);
                },
                Err(e) => {
                    return Err(e);
                },
            }
            k += 1;
        }
        proof {
            lemma_fields_nonempty(input@, '+', 0, 0);
            assert(mods@ =~= Seq::new(ps.len(), |i: int| Mod::parsed(trimmed(ps[i]))->Some_0));
        }
        Ok(mods)
    }

    /// The characters that stand for `command` as a key press under the
    /// settings in force.
    pub fn command_to_keybind(&self, command: &Command) -> (r: String)
        ensures
            r@ == self@.keybind(*command),
    {
        let modifiers = match command {
            Command::MoveFocus(_) | Command::MoveFocusOrTab(_) => self.settings.move_mod(),
            Command::Resize(_) => self.settings.resize_mod(),
        };
        let direction = match command {
            Command::MoveFocus(direction)
            | Command::MoveFocusOrTab(direction)
            | Command::Resize(direction) => direction,
        };
        encode(*direction, modifiers.as_slice(), self.settings.use_arrow_keys())
    }
}

} // verus!
