pub mod client_lines;
pub mod client_registry;
pub mod clock;
pub mod colors;
pub mod command;
pub mod config;
pub mod formatter;
pub mod message;
pub mod room;
pub mod room_registry;
pub mod session;
pub mod text;
pub mod tui;
pub mod user_color;
pub mod wire;

use vstd::prelude::*;

verus! {

/// A connection identifier: the server models each client connection
/// by a small numeric handle, assigned by the accepting loop. The handle
/// 0 stands for the server itself.
pub type Addr = u64;

} // verus!
