//! The configuration resolver: from the options that the host hands over,
//! as names and values, to validated settings.

use crate::command::Command;
use crate::modifier::{modifiers_in, Mod};
use crate::text::{lowercase, str_equal};
use vstd::prelude::*;
use vstd::string::StringExecFns;

verus! {

/// The settings that the options resolve to.
pub struct SettingsView {
    /// The modifiers of the key press that moves the focus.
    pub move_mod: Seq<Mod>,
    /// The modifiers of the key press that resizes.
    pub resize_mod: Seq<Mod>,
    /// Whether key presses are sent as arrow keys.
    pub use_arrow_keys: bool,
}

impl SettingsView {
    /// The settings where no option is given: Ctrl moves, Alt resizes, and
    /// the arrow keys are not used.
    pub open spec fn initial() -> SettingsView {
        SettingsView { move_mod: seq![Mod::Ctrl], resize_mod: seq![Mod::Alt], use_arrow_keys: false }
    }

    /// Each of the two key presses has at least one modifier.
    pub open spec fn wf(self) -> bool {
        self.move_mod.len() >= 1 && self.resize_mod.len() >= 1
    }

    /// The modifiers of the key press that stands for `command`.
    pub open spec fn modifiers_for(self, command: Command) -> Seq<Mod> {
        if command.resizes() {
            self.resize_mod
        } else {
            self.move_mod
        }
    }
}

/// Why a configuration was rejected.
#[derive(Clone, Debug, PartialEq, Eq)]
pub enum ConfigError {
    /// The option `move_mod` holds something that names no modifier.
    MoveMod(String),
    /// The option `resize_mod` holds something that names no modifier.
    ResizeMod(String),
}

/// What a `ConfigError` holds.
pub enum ConfigErrorView {
    MoveMod(Seq<char>),
    ResizeMod(Seq<char>),
}

impl View for ConfigError {
    type V = ConfigErrorView;

    open spec fn view(&self) -> ConfigErrorView {
        match self {
            ConfigError::MoveMod(reason) => ConfigErrorView::MoveMod(reason@),
            ConfigError::ResizeMod(reason) => ConfigErrorView::ResizeMod(reason@),
        }
    }
}

/// What a list of options holds: names and values.
pub open spec fn option_views(configuration: Seq<(String, String)>) -> Seq<(Seq<char>, Seq<char>)> {
    configuration.map_values(|entry: (String, String)| (entry.0@, entry.1@))
}

/// The index of the first option from `i` on that is called `name`; the
/// number of options where none is.
pub open spec fn find_option(options: Seq<(Seq<char>, Seq<char>)>, name: Seq<char>, i: int) -> int
    decreases options.len() - i,
{
    if 0 <= i < options.len() && options[i].0 != name {
        find_option(options, name, i + 1)
    } else {
        i
    }
}

/// The value of the option `name`, where it is given. Of two options with
/// one name the first counts.
pub open spec fn option_value(options: Seq<(Seq<char>, Seq<char>)>, name: Seq<char>) -> Option<
    Seq<char>,
> {
    let k = find_option(options, name, 0);
    if k < options.len() {
        Some(options[k].1)
    } else {
        None
    }
}

/// Whether no two options have one name, as in a map from names to values.
pub open spec fn distinct_names(options: Seq<(Seq<char>, Seq<char>)>) -> bool {
    forall|i: int, j: int| 0 <= i < j < options.len() ==> options[i].0 != options[j].0
}

/// Whether a switch is on: it is given, and its value is `true` in upper,
/// lower or mixed case.
pub open spec fn switched_on(value: Option<Seq<char>>) -> bool {
    value matches Some(v) && lowercase(v) == "true"@
}

/// The modifiers that an option asks for: the default where it is not
/// given, else what its value lists, or the reason why that is no list of
/// modifiers.
pub open spec fn modifiers_or(value: Option<Seq<char>>, default: Seq<Mod>) -> Result<
    Seq<Mod>,
    Seq<char>,
> {
    match value {
        Some(v) => modifiers_in(v),
        None => Ok(default),
    }
}

/// The settings that a list of options resolves to. `move_mod` and
/// `resize_mod` list modifiers, `use_arrow_keys` is a switch, and other
/// options do not count. An option that is not given has its default; one
/// that is given and does not list modifiers is an error, that of
/// `move_mod` first.
pub open spec fn resolved(options: Seq<(Seq<char>, Seq<char>)>) -> Result<
    SettingsView,
    ConfigErrorView,
> {
    match modifiers_or(option_value(options, "move_mod"@), SettingsView::initial().move_mod) {
        Err(reason) => Err(ConfigErrorView::MoveMod(reason)),
        Ok(move_mod) => match modifiers_or(
            option_value(options, "resize_mod"@),
            SettingsView::initial().resize_mod,
        ) {
            Err(reason) => Err(ConfigErrorView::ResizeMod(reason)),
            Ok(resize_mod) => Ok(
                SettingsView {
                    move_mod,
                    resize_mod,
                    use_arrow_keys: switched_on(option_value(options, "use_arrow_keys"@)),
                },
            ),
        },
    }
}

/// `find_option` finds the first option of the name, and no other.
pub proof fn lemma_find_option(options: Seq<(Seq<char>, Seq<char>)>, name: Seq<char>, i: int)
    requires
        0 <= i <= options.len(),
    ensures
        i <= find_option(options, name, i) <= options.len(),
        forall|j: int| i <= j < find_option(options, name, i) ==> options[j].0 != name,
        find_option(options, name, i) < options.len() ==> options[find_option(options, name, i)].0
            == name,
    decreases options.len() - i,
{
    if i < options.len() && options[i].0 != name {
        lemma_find_option(options, name, i + 1);
    }
}

/// Where no two options have one name, the order of the options does not
/// count: an option has a value exactly where the list holds the name with
/// that value.
pub proof fn lemma_option_value_in_map(
    options: Seq<(Seq<char>, Seq<char>)>,
    name: Seq<char>,
    value: Seq<char>,
)
    requires
        distinct_names(options),
    ensures
        option_value(options, name) == Some(value) <==> options.contains((name, value)),
{
    lemma_find_option(options, name, 0);
}

/// Settings that a list of options resolves to have at least one modifier
/// for each of the two key presses.
pub proof fn lemma_resolved_wf(options: Seq<(Seq<char>, Seq<char>)>)
    ensures
        resolved(options) matches Ok(settings) ==> settings.wf(),
{
    match option_value(options, "move_mod"@) {
        Some(v) => crate::modifier::lemma_modifiers_nonempty(v),
        None => {},
    }
    match option_value(options, "resize_mod"@) {
        Some(v) => crate::modifier::lemma_modifiers_nonempty(v),
        None => {},
    }
}

/// The value of the option `name` in `configuration`, where it is given.
pub fn lookup<'a>(configuration: &'a Vec<(String, String)>, name: &str) -> (r: Option<&'a str>)
    ensures
        match r {
            Some(v) => option_value(option_views(configuration@), name@) == Some(v@),
            None => option_value(option_views(configuration@), name@) is None,
        },
{
    let ghost options = option_views(configuration@);
    let mut i: usize = 0;
    while i < configuration.len()
        invariant
            options == option_views(configuration@),
            i <= configuration.len(),
            find_option(options, name@, 0) == find_option(options, name@, i as int),
        decreases configuration.len() - i,
    {
        let entry = &configuration[i];
        if str_equal(entry.0.as_str(), name) {
            return Some(entry.1.as_str());
        }
        i += 1;
    }
    None
}

impl ConfigError {
    /// The error in words: the option, then the reason.
    pub fn message(&self) -> (r: String)
        ensures
            r@ == match self@ {
                ConfigErrorView::MoveMod(reason) => "Illegal modifier for move_mod: "@ + reason,
                ConfigErrorView::ResizeMod(reason) => "Illegal modifier for resize_mod: "@ + reason,
            },
    {
        match self {
            ConfigError::MoveMod(reason) => {
                let mut r = String::from_str("Illegal modifier for move_mod: ");
                r.append(reason.as_str());
                r
            },
            ConfigError::ResizeMod(reason) => {
                let mut r = String::from_str("Illegal modifier for resize_mod: ");
                r.append(reason.as_str());
                r
            },
        }
    }
}

} // verus!
