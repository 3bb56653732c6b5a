//! Routing of directional focus and resize requests inside a terminal
//! multiplexer: requests wait in a queue until the host has said which
//! program owns the focused pane, and are then either handed to the host as
//! a native action or, where a modal editor owns the pane, encoded as the
//! keystroke that the editor expects.

pub mod command;
pub mod config;
pub mod direction;
pub mod focus;
pub mod host;
pub mod keys;
pub mod modifier;
pub mod state;
pub mod text;

pub use command::{parse_command, Command, PipeMessage};
pub use config::ConfigError;
pub use direction::{direction_to_string, string_to_direction, Direction};
pub use focus::{term_command_from_client_list, ClientInfo};
pub use host::{Action, Event, EventKind, Permission, PermissionStatus};
pub use keys::{
    alt_keybinding, arrow_kitty_keybinding, ctrl_keybinding, encode, kitty_keybinding,
    mods_to_kitty_protocol,
};
pub use modifier::{mod_to_kitty_protocol, Mod};
pub use state::{Settings, State};
