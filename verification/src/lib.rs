//! Expression syntax trees of a unit calculator and their token-level
//! pretty printer, with the printer's output stated and proved in Verus.

pub mod span;
pub mod ast;
pub mod expr;
pub mod print;
pub mod laws;
