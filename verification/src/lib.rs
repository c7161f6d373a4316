//! A rename-refactoring engine for a module-based language: given the
//! outcome of reference resolution and a candidate new identifier, it
//! synthesises one atomic, multi-file change that renames a symbol or a
//! module consistently, including the file move that a module rename
//! may require.

pub mod change;
pub mod engine;
pub mod ident;
pub mod paths;
pub mod text;
