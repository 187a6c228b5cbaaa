pub mod cmd;
pub mod config;
pub mod error;
pub mod order;
pub mod path;
pub mod platform;
pub mod runtime;
pub mod text;
pub mod shim;
