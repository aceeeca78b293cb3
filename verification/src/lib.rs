//! A typed builder for markup: a tree of tagged elements with attributes,
//! text and children is put together value by value and then written out as
//! one string.
//!
//! The tree is only ever written, never read back, and nothing in it is
//! escaped: a value that holds a quote or an angle bracket is written as it
//! is.

pub mod attribute;
pub mod document;
pub mod element;
pub mod prelude;
pub mod sequence;
pub mod tag;
pub mod text;
