//! Detection of source layout that is valid but visually misleading: an
//! assignment that reads like a compound operator (`a =- 1`), an `else if`
//! split over lines, and two adjacent `if`s that look like a chain missing
//! its `else`.
pub mod ast;
pub mod lemmas;
pub mod lints;
pub mod span;
pub mod text;
