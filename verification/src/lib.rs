//! Semantic file index: the verified core.
//!
//! A text is turned into a fixed-length embedding, stored beside the path of
//! the file it came from, and found again by similarity. This crate holds the
//! parts of that pipeline that can be stated exactly: the task prefixes, the
//! shape of the tokenizer's output, the byte layout of a stored vector, and the
//! protocol that keeps the two tables of the store paired.
//!
//! Floating-point work (inference, pooling, distances) is done by the caller.
//! An embedding is held here as the IEEE-754 bit patterns of its components.

pub mod error;
pub mod codec;
pub mod decimal;
pub mod embed;
pub mod protocol;
pub mod sqlite;
pub mod value_type;

pub use error::IndexError;

use vstd::prelude::*;
use vstd::string::*;

verus! {

/// A greeting for `name`.
pub fn greet(name: &str) -> (text: String)
    ensures
        text@ == "Hello, "@ + name@ + "! You've been greeted from Rust!"@,
{
    "Hello, ".to_owned().concat(name).concat("! You've been greeted from Rust!")
}

} // verus!
