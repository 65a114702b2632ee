pub mod invocation;
pub mod join;
pub mod parse;
pub mod escape;
pub mod format;
