//! The focus-owner tracker: which program runs in the focused pane, as far
//! as the host's list of clients tells.

use crate::text::{
    first_word, first_word_of, last_segment, last_segment_of, str_equal, text_view,
};
use vstd::prelude::*;

verus! {

/// One client of the host's client list.
#[derive(Clone, Debug, PartialEq, Eq)]
pub struct ClientInfo {
    /// The command line that runs in the client's focused pane.
    pub running_command: String,
    /// Whether this is the client that the request came from.
    pub is_current_client: bool,
}

/// What a `ClientInfo` holds.
pub struct ClientInfoView {
    pub running_command: Seq<char>,
    pub is_current_client: bool,
}

impl View for ClientInfo {
    type V = ClientInfoView;

    open spec fn view(&self) -> ClientInfoView {
        ClientInfoView {
            running_command: self.running_command@,
            is_current_client: self.is_current_client,
        }
    }
}

/// What a list of clients holds.
pub open spec fn client_views(clients: Seq<ClientInfo>) -> Seq<ClientInfoView> {
    clients.map_values(|c: ClientInfo| c@)
}

/// The name of the program that a command line starts: the first word of
/// the line, without the directories before its last `/`. A line without a
/// word names no program.
pub open spec fn program_name(running_command: Seq<char>) -> Option<Seq<char>> {
    match first_word_of(running_command) {
        Some(word) => Some(last_segment_of(word, '/')),
        None => None,
    }
}

/// The index of the first client from `i` on that is the current one; the
/// number of clients where none is.
pub open spec fn current_client(clients: Seq<ClientInfoView>, i: int) -> int
    decreases clients.len() - i,
{
    if 0 <= i < clients.len() && !clients[i].is_current_client {
        current_client(clients, i + 1)
    } else {
        i
    }
}

/// The program in the focused pane according to a client list: the program
/// of the first client marked as current. Unknown where no client is marked
/// or where that client's command line names no program.
pub open spec fn focus_owner(clients: Seq<ClientInfoView>) -> Option<Seq<char>> {
    let k = current_client(clients, 0);
    if k < clients.len() {
        program_name(clients[k].running_command)
    } else {
        None
    }
}

/// Whether the program in the focused pane is known to be a modal editor:
/// its name is `vim` or `nvim`, in exactly these letters.
pub open spec fn is_editor(owner: Option<Seq<char>>) -> bool {
    owner matches Some(name) && (name == "nvim"@ || name == "vim"@)
}

/// `current_client` finds the first client that is marked, and no other.
pub proof fn lemma_current_client(clients: Seq<ClientInfoView>, i: int)
    requires
        0 <= i <= clients.len(),
    ensures
        i <= current_client(clients, i) <= clients.len(),
        forall|j: int| i <= j < current_client(clients, i) ==> !clients[j].is_current_client,
        current_client(clients, i) < clients.len() ==> clients[current_client(
            clients,
            i,
        )].is_current_client,
    decreases clients.len() - i,
{
    if i < clients.len() && !clients[i].is_current_client {
        lemma_current_client(clients, i + 1);
    }
}

/// The program in the focused pane according to `clients`.
pub fn term_command_from_client_list(clients: Vec<ClientInfo>) -> (r: Option<String>)
    ensures
        text_view(r) == focus_owner(client_views(clients@)),
{
    let ghost views = client_views(clients@);
    let mut i: usize = 0;
    while i < clients.len()
        invariant
            views == client_views(clients@),
            i <= clients.len(),
            current_client(views, 0) == current_client(views, i as int),
        decreases clients.len() - i,
    {
        let c = &clients[i];
        if c.is_current_client {
            return match first_word(c.running_command.as_str()) {
                Some(word) => Some(last_segment(word, '/').to_owned()),
                None => None,
            };
        }
        i += 1;
    }
    None
}

/// Whether `name` is the name of a modal editor.
pub fn is_editor_name(name: &str) -> (r: bool)
    ensures
        r == is_editor(Some(name@)),
{
    str_equal(name, "nvim") || str_equal(name, "vim")
}

} // verus!
