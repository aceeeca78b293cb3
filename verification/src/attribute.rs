//! Attributes: the catalog of kinds, the typed values, and the set that an
//! element carries.

pub mod builder;
pub mod kind;
pub mod laws;
pub mod set;
pub mod value;

pub use builder::AttrsBuilder;
pub use kind::Attr;
pub use set::{validate_attrs, Attrs};
pub use value::{
    Alt, AttrValue, Az, Charset, Class, Content, Data, Defer, Height, Hidden, HiddenValue, Href,
    HttpEquiv, Id, Lang, LinkTarget, Name, Onclick, Rel, Src, Tabindex, Target, Type, Width,
};
