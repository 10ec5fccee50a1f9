//! Command layer of a Typst language server: the registry of the commands
//! that clients may execute, and the validation and routing of their
//! arguments.

pub mod command;
pub mod export;
