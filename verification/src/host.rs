//! What passes between the library and the host: the events that the host
//! delivers and the actions that the library asks of it.

use crate::direction::Direction;
use crate::focus::{client_views, ClientInfo, ClientInfoView};
use vstd::prelude::*;

verus! {

/// The host's answer to a request for permissions.
#[derive(Clone, Copy, Debug, PartialEq, Eq, Structural)]
pub enum PermissionStatus {
    Granted,
    Denied,
}

/// A permission that the library needs from the host.
#[derive(Clone, Copy, Debug, PartialEq, Eq, Structural)]
pub enum Permission {
    WriteToStdin,
    ChangeApplicationState,
    ReadApplicationState,
}

/// A kind of event that the library wants to be told of.
#[derive(Clone, Copy, Debug, PartialEq, Eq, Structural)]
pub enum EventKind {
    PermissionRequestResult,
    ListClients,
}

/// An event that the host delivers.
#[derive(Clone, Debug, PartialEq, Eq)]
pub enum Event {
    /// The answer to a request for the client list.
    ListClients(Vec<ClientInfo>),
    /// The answer to a request for permissions.
    PermissionRequestResult(PermissionStatus),
    /// Any other event.
    Other,
}

/// What an `Event` holds.
pub enum EventView {
    ListClients(Seq<ClientInfoView>),
    PermissionRequestResult(PermissionStatus),
    Other,
}

impl View for Event {
    type V = EventView;

    open spec fn view(&self) -> EventView {
        match self {
            Event::ListClients(clients) => EventView::ListClients(client_views(clients@)),
            Event::PermissionRequestResult(status) => EventView::PermissionRequestResult(*status),
            Event::Other => EventView::Other,
        }
    }
}

/// Something that the host is asked to do.
#[derive(Clone, Debug, PartialEq, Eq)]
pub enum Action {
    /// Ask the user for these permissions.
    RequestPermission(Vec<Permission>),
    /// Deliver events of these kinds from now on.
    Subscribe(Vec<EventKind>),
    /// Hide the library's own pane.
    HideSelf,
    /// Send the current client list; it comes as an event.
    ListClients,
    /// Move the focus to the next pane in this direction.
    MoveFocus(Direction),
    /// Move the focus in this direction, to the next tab where there is no
    /// further pane.
    MoveFocusOrTab(Direction),
    /// Grow the focused pane in this direction.
    ResizeIncrease(Direction),
    /// Write these characters to the input of the focused pane.
    WriteChars(String),
}

/// What an `Action` holds.
pub enum ActionView {
    RequestPermission(Seq<Permission>),
    Subscribe(Seq<EventKind>),
    HideSelf,
    ListClients,
    MoveFocus(Direction),
    MoveFocusOrTab(Direction),
    ResizeIncrease(Direction),
    WriteChars(Seq<char>),
}

impl View for Action {
    type V = ActionView;

    open spec fn view(&self) -> ActionView {
        match self {
            Action::RequestPermission(permissions) => ActionView::RequestPermission(permissions@),
            Action::Subscribe(kinds) => ActionView::Subscribe(kinds@),
            Action::HideSelf => ActionView::HideSelf,
            Action::ListClients => ActionView::ListClients,
            Action::MoveFocus(d) => ActionView::MoveFocus(*d),
            Action::MoveFocusOrTab(d) => ActionView::MoveFocusOrTab(*d),
            Action::ResizeIncrease(d) => ActionView::ResizeIncrease(*d),
            Action::WriteChars(chars) => ActionView::WriteChars(chars@),
        }
    }
}

/// What an action that may be absent holds.
pub open spec fn action_view(action: Option<Action>) -> Option<ActionView> {
    match action {
        Some(a) => Some(a@),
        None => None,
    }
}

/// What a list of actions holds.
pub open spec fn action_views(actions: Seq<Action>) -> Seq<ActionView> {
    actions.map_values(|a: Action| a@)
}

} // verus!
