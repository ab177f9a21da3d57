//! Locates, configures and launches the PHP tooling processes (language
//! servers and the Xdebug adapter) that an editor host asks for.

pub mod text;
pub mod command;
pub mod platform;
pub mod psalm;
pub mod xdebug;
pub mod extension;
