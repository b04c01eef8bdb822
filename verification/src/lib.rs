//! Register files as templates under `~/.template/<extension>/` and copy
//! them back out. The rules for the command line, names, paths and the
//! user's choices are stated as contracts and proved.
//!
//! - [`args`]: what a command line asks for;
//! - [`names`]: the extension of a file name and the names of copies;
//! - [`paths`]: where templates are stored and where copies are written;
//! - [`selection`]: the numbered listings and the user's choice;
//! - [`session`]: the decisions of one run, as a state machine.

pub mod args;
pub mod names;
pub mod paths;
pub mod selection;
pub mod session;
