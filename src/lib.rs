//! A command-line notification tool: runs a command and reports how it
//! ended as a desktop notification, shown here or sent to a listener on
//! another machine, which shows it there.
pub mod text;
pub mod error;
pub mod note;
pub mod command;
pub mod dispatch;
pub mod listen;
pub mod update;
