//! The computing core of a `cargo rustc` front end: which targets of a package
//! are compiled, which package is asked for, and which compiler invocation
//! receives the user's trailing arguments.

pub mod interceptor;
pub mod plan;
