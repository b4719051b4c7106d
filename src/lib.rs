//! Decision logic of a desktop front end that drives a command-line coding
//! agent: search-path composition, binary lookup, project naming and
//! analysis, file listings, and the bookkeeping of one running agent process.
//! Everything that touches the file system, the environment or child
//! processes is left to the caller, which hands plain values in and out.

pub mod analysis;
pub mod listing;
pub mod paths;
pub mod project;
pub mod run;
pub mod session;
pub mod text;
