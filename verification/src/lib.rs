//! An interactive remote-console client: the wire codec, the session's
//! decisions, command history, scrollback wrapping and the line editor.
pub mod history;
pub mod rcon;
pub mod repl;
pub mod scroller;
pub mod util;
