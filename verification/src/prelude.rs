//! The names that building a page needs, in one place.

pub use crate::attribute::{Attr, Attrs, AttrsBuilder, HiddenValue, LinkTarget};
pub use crate::document::{Doctype, Document};
pub use crate::element::{Element, ElementBuilder};
pub use crate::tag::Tag;
