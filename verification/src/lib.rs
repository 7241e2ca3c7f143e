//! Option handling for the `diff` utility: the command-line model, the
//! conversion of parsed arguments into [`Params`], the rewriting of
//! GNU-style numeric short options before they reach the argument parser,
//! and the decisions that the comparison driver makes around its I/O.

pub mod options;
pub mod text;
pub mod format;
pub mod number;
pub mod errors;
pub mod args;
pub mod params;
pub mod prepare;
pub mod compare;
