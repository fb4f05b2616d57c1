//! A guided walk through ownership, borrowing and slices.
//!
//! The helpers that the walk is built from are small functions on strings;
//! each carries a contract over the string's view as a sequence of characters.

pub mod borrowing;
pub mod console;
pub mod decimal;
pub mod encoding;
pub mod ownership;
pub mod slices;
pub mod std_string;
pub mod tour;
