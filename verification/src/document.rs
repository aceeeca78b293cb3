//! A whole document: the document-type declaration and the top-level
//! elements.

use crate::element::{open_tag_text, render_each, views, warnings_each, Element, ElementView};
use crate::tag::Tag;
use crate::text::append_all;
use vstd::prelude::*;

verus! {

/// The kind of document that the declaration names.
#[derive(Debug, Clone, Copy, PartialEq, Eq, Structural)]
pub enum Doctype {
    Html,
}

impl Default for Doctype {
    fn default() -> (doctype: Self)
        ensures
            doctype == Doctype::Html,
    {
        Doctype::Html
    }
}

impl Doctype {
    /// The word that names the kind of document in the declaration.
    pub open spec fn keyword(self) -> Seq<char> {
        match self {
            Doctype::Html => "html"@,
        }
    }

    /// The keyword as a borrowed literal.
    pub fn as_str(&self) -> (s: &'static str)
        ensures
            s@ == self.keyword(),
    {
        match self {
            Doctype::Html => "html",
        }
    }

    /// The keyword as an owned string.
    pub fn to_string(&self) -> (s: String)
        ensures
            s@ == self.keyword(),
    {
        self.as_str().to_string()
    }
}

/// A document as a mathematical value.
pub struct DocumentView {
    pub doctype: Doctype,
    pub elements: Seq<ElementView>,
}

impl DocumentView {
    /// The declaration that opens the document: the opening tag of the
    /// document-type tag around the doctype's keyword.
    pub open spec fn preamble(self) -> Seq<char> {
        open_tag_text(Tag::Doctype, self.doctype.keyword())
    }

    /// The serialisation of the document: the declaration, then each
    /// top-level element in order, with nothing between them.
    pub open spec fn render(self) -> Seq<char> {
        self.preamble() + render_each(self.elements).flatten()
    }

    /// The warnings that serialising the document gives rise to: those of
    /// each top-level element, in order.
    pub open spec fn warnings(self) -> Seq<Seq<char>> {
        warnings_each(self.elements).flatten()
    }
}

/// The root of a tree: a doctype and the top-level elements.
#[derive(Debug)]
pub struct Document {
    pub doctype: Doctype,
    pub elements: Vec<Element>,
}

impl View for Document {
    type V = DocumentView;

    open spec fn view(&self) -> DocumentView {
        DocumentView { doctype: self.doctype, elements: views(self.elements@) }
    }
}

impl Clone for Document {
    fn clone(&self) -> (copy: Self)
        ensures
            copy@ == self@,
    {
        Document { doctype: self.doctype, elements: Element::clone_all(&self.elements) }
    }
}

impl Document {
    /// The serialisation of the document.
    pub fn to_string(&self) -> (out: String)
        ensures
            out@ == self@.render(),
    {
        let mut out = Element::open_tag(&Tag::Doctype, self.doctype.as_str());
        let rendered = Element::make_tags(&self.elements);
        append_all(&mut out, &rendered);
        out
    }

    /// The warnings that serialising the document gives rise to. Nothing is
    /// written anywhere: the caller passes them on.
    pub fn warnings(&self) -> (out: Vec<String>)
        ensures
            out.deep_view() == self@.warnings(),
    {
        Element::all_warnings(&self.elements)
    }
}

} // verus!
