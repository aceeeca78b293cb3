//! One named entry point for each tag.

use crate::element::{Element, ElementBuilder};
use crate::tag::Tag;
use vstd::prelude::*;

verus! {

impl Element {
    /// A builder for an element of `tag`.
    pub fn new(tag: Tag) -> (builder: ElementBuilder)
        ensures
            builder == ElementBuilder::empty(tag),
    {
        ElementBuilder::new(tag)
    }

    /// A builder for an `a` element.
    pub fn a() -> (builder: ElementBuilder)
        ensures
            builder == ElementBuilder::empty(Tag::A),
    {
        ElementBuilder::new(Tag::A)
    }

    /// A builder for a `b` element.
    pub fn b() -> (builder: ElementBuilder)
        ensures
            builder == ElementBuilder::empty(Tag::B),
    {
        ElementBuilder::new(Tag::B)
    }

    /// A builder for a `body` element.
    pub fn body() -> (builder: ElementBuilder)
        ensures
            builder == ElementBuilder::empty(Tag::Body),
    {
        ElementBuilder::new(Tag::Body)
    }

    /// A builder for a `br` element.
    pub fn br() -> (builder: ElementBuilder)
        ensures
            builder == ElementBuilder::empty(Tag::Br),
    {
        ElementBuilder::new(Tag::Br)
    }

    /// A builder for a `button` element.
    pub fn button() -> (builder: ElementBuilder)
        ensures
            builder == ElementBuilder::empty(Tag::Button),
    {
        ElementBuilder::new(Tag::Button)
    }

    /// A builder for a `code` element.
    pub fn code() -> (builder: ElementBuilder)
        ensures
            builder == ElementBuilder::empty(Tag::Code),
    {
        ElementBuilder::new(Tag::Code)
    }

    /// A builder for a comment.
    pub fn comment() -> (builder: ElementBuilder)
        ensures
            builder == ElementBuilder::empty(Tag::Comment),
    {
        ElementBuilder::new(Tag::Comment)
    }

    /// A builder for a `div` element.
    pub fn div() -> (builder: ElementBuilder)
        ensures
            builder == ElementBuilder::empty(Tag::Div),
    {
        ElementBuilder::new(Tag::Div)
    }

    /// A builder for a document-type declaration.
    pub fn doctype() -> (builder: ElementBuilder)
        ensures
            builder == ElementBuilder::empty(Tag::Doctype),
    {
        ElementBuilder::new(Tag::Doctype)
    }

    /// A builder for an `em` element.
    pub fn em() -> (builder: ElementBuilder)
        ensures
            builder == ElementBuilder::empty(Tag::Em),
    {
        ElementBuilder::new(Tag::Em)
    }

    /// A builder for a `footer` element.
    pub fn footer() -> (builder: ElementBuilder)
        ensures
            builder == ElementBuilder::empty(Tag::Footer),
    {
        ElementBuilder::new(Tag::Footer)
    }

    /// A builder for an `h1` element.
    pub fn h1() -> (builder: ElementBuilder)
        ensures
            builder == ElementBuilder::empty(Tag::H1),
    {
        ElementBuilder::new(Tag::H1)
    }

    /// A builder for an `h2` element.
    pub fn h2() -> (builder: ElementBuilder)
        ensures
            builder == ElementBuilder::empty(Tag::H2),
    {
        ElementBuilder::new(Tag::H2)
    }

    /// A builder for an `h3` element.
    pub fn h3() -> (builder: ElementBuilder)
        ensures
            builder == ElementBuilder::empty(Tag::H3),
    {
        ElementBuilder::new(Tag::H3)
    }

    /// A builder for an `h4` element.
    pub fn h4() -> (builder: ElementBuilder)
        ensures
            builder == ElementBuilder::empty(Tag::H4),
    {
        ElementBuilder::new(Tag::H4)
    }

    /// A builder for an `h5` element.
    pub fn h5() -> (builder: ElementBuilder)
        ensures
            builder == ElementBuilder::empty(Tag::H5),
    {
        ElementBuilder::new(Tag::H5)
    }

    /// A builder for an `h6` element.
    pub fn h6() -> (builder: ElementBuilder)
        ensures
            builder == ElementBuilder::empty(Tag::H6),
    {
        ElementBuilder::new(Tag::H6)
    }

    /// A builder for a `head` element.
    pub fn head() -> (builder: ElementBuilder)
        ensures
            builder == ElementBuilder::empty(Tag::Head),
    {
        ElementBuilder::new(Tag::Head)
    }

    /// A builder for a `header` element.
    pub fn header() -> (builder: ElementBuilder)
        ensures
            builder == ElementBuilder::empty(Tag::Header),
    {
        ElementBuilder::new(Tag::Header)
    }

    /// A builder for an `html` element.
    pub fn html() -> (builder: ElementBuilder)
        ensures
            builder == ElementBuilder::empty(Tag::Html),
    {
        ElementBuilder::new(Tag::Html)
    }

    /// A builder for an `i` element.
    pub fn i() -> (builder: ElementBuilder)
        ensures
            builder == ElementBuilder::empty(Tag::I),
    {
        ElementBuilder::new(Tag::I)
    }

    /// A builder for an `input` element.
    pub fn input() -> (builder: ElementBuilder)
        ensures
            builder == ElementBuilder::empty(Tag::Input),
    {
        ElementBuilder::new(Tag::Input)
    }

    /// A builder for an `img` element.
    pub fn img() -> (builder: ElementBuilder)
        ensures
            builder == ElementBuilder::empty(Tag::Img),
    {
        ElementBuilder::new(Tag::Img)
    }

    /// A builder for a `kbd` element.
    pub fn kbd() -> (builder: ElementBuilder)
        ensures
            builder == ElementBuilder::empty(Tag::Kbd),
    {
        ElementBuilder::new(Tag::Kbd)
    }

    /// A builder for a `label` element.
    pub fn label() -> (builder: ElementBuilder)
        ensures
            builder == ElementBuilder::empty(Tag::Label),
    {
        ElementBuilder::new(Tag::Label)
    }

    /// A builder for an `li` element.
    pub fn li() -> (builder: ElementBuilder)
        ensures
            builder == ElementBuilder::empty(Tag::Li),
    {
        ElementBuilder::new(Tag::Li)
    }

    /// A builder for a `link` element.
    pub fn link() -> (builder: ElementBuilder)
        ensures
            builder == ElementBuilder::empty(Tag::Link),
    {
        ElementBuilder::new(Tag::Link)
    }

    /// A builder for a `meta` element.
    pub fn meta() -> (builder: ElementBuilder)
        ensures
            builder == ElementBuilder::empty(Tag::Meta),
    {
        ElementBuilder::new(Tag::Meta)
    }

    /// A builder for a `nav` element.
    pub fn nav() -> (builder: ElementBuilder)
        ensures
            builder == ElementBuilder::empty(Tag::Nav),
    {
        ElementBuilder::new(Tag::Nav)
    }

    /// A builder for an `ol` element.
    pub fn ol() -> (builder: ElementBuilder)
        ensures
            builder == ElementBuilder::empty(Tag::Ol),
    {
        ElementBuilder::new(Tag::Ol)
    }

    /// A builder for a `p` element.
    pub fn p() -> (builder: ElementBuilder)
        ensures
            builder == ElementBuilder::empty(Tag::P),
    {
        ElementBuilder::new(Tag::P)
    }

    /// A builder for a `pre` element.
    pub fn pre() -> (builder: ElementBuilder)
        ensures
            builder == ElementBuilder::empty(Tag::Pre),
    {
        ElementBuilder::new(Tag::Pre)
    }

    /// A builder for a `q` element.
    pub fn q() -> (builder: ElementBuilder)
        ensures
            builder == ElementBuilder::empty(Tag::Q),
    {
        ElementBuilder::new(Tag::Q)
    }

    /// A builder for a `script` element.
    pub fn script() -> (builder: ElementBuilder)
        ensures
            builder == ElementBuilder::empty(Tag::Script),
    {
        ElementBuilder::new(Tag::Script)
    }

    /// A builder for a `span` element.
    pub fn span() -> (builder: ElementBuilder)
        ensures
            builder == ElementBuilder::empty(Tag::Span),
    {
        ElementBuilder::new(Tag::Span)
    }

    /// A builder for a `strong` element.
    pub fn strong() -> (builder: ElementBuilder)
        ensures
            builder == ElementBuilder::empty(Tag::Strong),
    {
        ElementBuilder::new(Tag::Strong)
    }

    /// A builder for a `sub` element.
    pub fn sub() -> (builder: ElementBuilder)
        ensures
            builder == ElementBuilder::empty(Tag::Sub),
    {
        ElementBuilder::new(Tag::Sub)
    }

    /// A builder for a `sup` element.
    pub fn sup() -> (builder: ElementBuilder)
        ensures
            builder == ElementBuilder::empty(Tag::Sup),
    {
        ElementBuilder::new(Tag::Sup)
    }

    /// A builder for a `table` element.
    pub fn table() -> (builder: ElementBuilder)
        ensures
            builder == ElementBuilder::empty(Tag::Table),
    {
        ElementBuilder::new(Tag::Table)
    }

    /// A builder for a `thead` element.
    pub fn thead() -> (builder: ElementBuilder)
        ensures
            builder == ElementBuilder::empty(Tag::Thead),
    {
        ElementBuilder::new(Tag::Thead)
    }

    /// A builder for a `tbody` element.
    pub fn tbody() -> (builder: ElementBuilder)
        ensures
            builder == ElementBuilder::empty(Tag::Tbody),
    {
        ElementBuilder::new(Tag::Tbody)
    }

    /// A builder for a `th` element.
    pub fn th() -> (builder: ElementBuilder)
        ensures
            builder == ElementBuilder::empty(Tag::Th),
    {
        ElementBuilder::new(Tag::Th)
    }

    /// A builder for a `tr` element.
    pub fn tr() -> (builder: ElementBuilder)
        ensures
            builder == ElementBuilder::empty(Tag::Tr),
    {
        ElementBuilder::new(Tag::Tr)
    }

    /// A builder for a `td` element.
    pub fn td() -> (builder: ElementBuilder)
        ensures
            builder == ElementBuilder::empty(Tag::Td),
    {
        ElementBuilder::new(Tag::Td)
    }

    /// A builder for a `title` element.
    pub fn title() -> (builder: ElementBuilder)
        ensures
            builder == ElementBuilder::empty(Tag::Title),
    {
        ElementBuilder::new(Tag::Title)
    }

    /// A builder for a `ul` element.
    pub fn ul() -> (builder: ElementBuilder)
        ensures
            builder == ElementBuilder::empty(Tag::Ul),
    {
        ElementBuilder::new(Tag::Ul)
    }
}

} // verus!
