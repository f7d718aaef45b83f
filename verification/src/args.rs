//! Parsing of the argument list of a `get` annotation.

pub mod arg_types;
pub mod funky;
