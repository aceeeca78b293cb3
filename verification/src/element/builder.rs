//! Building an element field by field.

use crate::attribute::Attrs;
use crate::element::{Element, ElementView};
use crate::tag::Tag;
use vstd::prelude::*;

verus! {

/// An element under construction. The tag is fixed at the start; each
/// setter fills one field and leaves the others as they are. Nothing is
/// checked here: whether the tag accepts an attribute is decided when the
/// element is serialised. Its view is that of the element it would build.
#[derive(Debug)]
pub struct ElementBuilder {
    pub tag: Tag,
    pub attrs: Option<Attrs>,
    pub text: Option<String>,
    pub content: Option<String>,
    pub children: Option<Vec<Element>>,
}

impl View for ElementBuilder {
    type V = ElementView;

    open spec fn view(&self) -> ElementView {
        self.built()@
    }
}

impl Clone for ElementBuilder {
    fn clone(&self) -> (copy: Self)
        ensures
            copy@ == self@,
    {
        let copy = ElementBuilder {
            tag: self.tag,
            attrs: self.attrs.clone(),
            text: self.text.clone(),
            content: self.content.clone(),
            children: match &self.children {
                Some(children) => Some(Element::clone_all(children)),
                None => None,
            },
        };
        proof {
            self.built().lemma_children_view();
            copy.built().lemma_children_view();
        }
        copy
    }
}

impl ElementBuilder {
    /// The element that `build` returns.
    pub open spec fn built(&self) -> Element {
        Element {
            tag: self.tag,
            attrs: self.attrs,
            text: self.text,
            content: self.content,
            children: self.children,
        }
    }

    /// The builder of `tag` in which nothing else is set.
    pub open spec fn empty(tag: Tag) -> ElementBuilder {
        ElementBuilder { tag, attrs: None, text: None, content: None, children: None }
    }

    /// A builder for an element of `tag`, with every other field empty.
    pub fn new(tag: Tag) -> (builder: Self)
        ensures
            builder == Self::empty(tag),
    {
        ElementBuilder { tag, attrs: None, text: None, content: None, children: None }
    }

    /// Gives the element its attributes. A set given before is replaced.
    pub fn attrs(self, attrs: Attrs) -> (builder: Self)
        ensures
            builder == (ElementBuilder { attrs: Some(attrs), ..self }),
    {
        ElementBuilder { attrs: Some(attrs), ..self }
    }

    /// Gives the element the text that stands inside its opening tag where
    /// no attribute is written there. A text given before is replaced.
    pub fn text(self, text: &str) -> (builder: Self)
        ensures
            builder.text matches Some(held) && held@ == text@,
            builder == (ElementBuilder { text: builder.text, ..self }),
    {
        ElementBuilder { text: Some(text.to_string()), ..self }
    }

    /// Gives the element the content that stands between its opening tag
    /// and its children. A content given before is replaced.
    pub fn content(self, content: &str) -> (builder: Self)
        ensures
            builder.content matches Some(held) && held@ == content@,
            builder == (ElementBuilder { content: builder.content, ..self }),
    {
        ElementBuilder { content: Some(content.to_string()), ..self }
    }

    /// Gives the element its children, in order. Children given before are
    /// replaced.
    pub fn children(self, children: Vec<Element>) -> (builder: Self)
        ensures
            builder == (ElementBuilder { children: Some(children), ..self }),
    {
        ElementBuilder { children: Some(children), ..self }
    }

    /// The finished element: each field as the builder holds it.
    pub fn build(self) -> (element: Element)
        ensures
            element == self.built(),
            element@ == self@,
    {
        Element {
            tag: self.tag,
            attrs: self.attrs,
            text: self.text,
            content: self.content,
            children: self.children,
        }
    }
}

} // verus!
