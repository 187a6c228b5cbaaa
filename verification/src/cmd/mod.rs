//! Subcommands: each takes a runtime and its arguments and decides what the
//! caller is to run or show.
pub mod info;
pub mod list;
pub mod rebuild;
pub mod status;
pub mod uninstall;
pub mod upgrade;
