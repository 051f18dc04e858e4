//! Command-line front end of a small text and file search tool: the argument
//! grammar, its validation pipeline and the configuration record it yields.

pub mod errors;
pub mod execute_main_operations;
pub mod grammar;
pub mod laws;
pub mod parse_and_build_arguments;
pub mod probe;
pub mod tokens;
pub mod vocabulary;
