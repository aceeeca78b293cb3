//! The closed catalog of element names.

use crate::attribute::Attr;
use crate::sequence::lemma_contains_add;
use vstd::prelude::*;

verus! {

/// One element name.
#[derive(Debug, Clone, Copy, PartialEq, Eq, Structural)]
pub enum Tag {
    A,
    B,
    Body,
    Br,
    Button,
    Code,
    Comment,
    Div,
    Doctype,
    Em,
    Footer,
    H1,
    H2,
    H3,
    H4,
    H5,
    H6,
    Head,
    Header,
    Html,
    I,
    Input,
    Img,
    Kbd,
    Label,
    Li,
    Link,
    Meta,
    Nav,
    Ol,
    P,
    Pre,
    Q,
    Script,
    Span,
    Strong,
    Sub,
    Sup,
    Table,
    Thead,
    Tbody,
    Th,
    Tr,
    Td,
    Title,
    Ul,
}

impl Tag {
    /// The tag's spelling in markup.
    pub open spec fn spelling(self) -> Seq<char> {
        match self {
            Tag::A => "a"@,
            Tag::B => "b"@,
            Tag::Body => "body"@,
            Tag::Br => "br"@,
            Tag::Button => "button"@,
            Tag::Code => "code"@,
            Tag::Comment => "!--"@,
            Tag::Div => "div"@,
            Tag::Doctype => "!DOCTYPE"@,
            Tag::Em => "em"@,
            Tag::Footer => "footer"@,
            Tag::H1 => "h1"@,
            Tag::H2 => "h2"@,
            Tag::H3 => "h3"@,
            Tag::H4 => "h4"@,
            Tag::H5 => "h5"@,
            Tag::H6 => "h6"@,
            Tag::Head => "head"@,
            Tag::Header => "header"@,
            Tag::Html => "html"@,
            Tag::I => "i"@,
            Tag::Input => "input"@,
            Tag::Img => "img"@,
            Tag::Kbd => "kbd"@,
            Tag::Label => "label"@,
            Tag::Li => "li"@,
            Tag::Link => "link"@,
            Tag::Meta => "meta"@,
            Tag::Nav => "nav"@,
            Tag::Ol => "ol"@,
            Tag::P => "p"@,
            Tag::Pre => "pre"@,
            Tag::Q => "q"@,
            Tag::Script => "script"@,
            Tag::Span => "span"@,
            Tag::Strong => "strong"@,
            Tag::Sub => "sub"@,
            Tag::Sup => "sup"@,
            Tag::Table => "table"@,
            Tag::Thead => "thead"@,
            Tag::Tbody => "tbody"@,
            Tag::Th => "th"@,
            Tag::Tr => "tr"@,
            Tag::Td => "td"@,
            Tag::Title => "title"@,
            Tag::Ul => "ul"@,
        }
    }

    /// Whether the tag is void: written as an opening tag alone, with no
    /// content, no children and no closing tag.
    pub open spec fn is_void_spec(&self) -> bool {
        *self == Tag::Doctype || *self == Tag::Meta || *self == Tag::Comment || *self == Tag::Br
            || *self == Tag::Img
    }

    /// The list of the attributes that the tag accepts: the global ones
    /// alone for `b`, `body` and `code`; the global ones, then a few of
    /// their own, for `a` and `button`; the full catalog for the rest.
    pub open spec fn attributes_spec(self) -> Seq<Attr> {
        match self {
            Tag::B | Tag::Body | Tag::Code => Attr::global_spec(),
            Tag::A => Attr::global_spec() + seq![
                Attr::Href,
                Attr::Onclick,
                Attr::Rel,
                Attr::Target,
            ],
            Tag::Button => Attr::global_spec() + seq![Attr::Type],
            _ => Attr::all_spec(),
        }
    }

    /// Whether `attr` may appear on this tag: the legality relation.
    pub open spec fn accepts(self, attr: Attr) -> bool {
        match self {
            Tag::B | Tag::Body | Tag::Code => attr.is_global(),
            Tag::A => attr.is_global() || attr == Attr::Href || attr == Attr::Onclick || attr
                == Attr::Rel || attr == Attr::Target,
            Tag::Button => attr.is_global() || attr == Attr::Type,
            _ => true,
        }
    }

    /// The list of a tag's attributes holds the attributes that the tag
    /// accepts and no other.
    pub proof fn lemma_attributes_list(self, attr: Attr)
        ensures
            self.attributes_spec().contains(attr) <==> self.accepts(attr),
    {
        Attr::lemma_global_list(attr);
        Attr::lemma_catalog_is_complete(attr);
        let global = Attr::global_spec();
        match self {
            Tag::B | Tag::Body | Tag::Code => {},
            Tag::A => {
                let own = seq![Attr::Href, Attr::Onclick, Attr::Rel, Attr::Target];
                assert(own[0] == Attr::Href && own[1] == Attr::Onclick && own[2] == Attr::Rel
                    && own[3] == Attr::Target);
                lemma_contains_add(global, own, attr);
            },
            Tag::Button => {
                let own = seq![Attr::Type];
                assert(own[0] == Attr::Type);
                lemma_contains_add(global, own, attr);
            },
            _ => {},
        }
    }

    /// The tag's spelling as a borrowed literal.
    pub fn as_str(&self) -> (s: &'static str)
        ensures
            s@ == self.spelling(),
    {
        match self {
            Tag::A => "a",
            Tag::B => "b",
            Tag::Body => "body",
            Tag::Br => "br",
            Tag::Button => "button",
            Tag::Code => "code",
            Tag::Comment => "!--",
            Tag::Div => "div",
            Tag::Doctype => "!DOCTYPE",
            Tag::Em => "em",
            Tag::Footer => "footer",
            Tag::H1 => "h1",
            Tag::H2 => "h2",
            Tag::H3 => "h3",
            Tag::H4 => "h4",
            Tag::H5 => "h5",
            Tag::H6 => "h6",
            Tag::Head => "head",
            Tag::Header => "header",
            Tag::Html => "html",
            Tag::I => "i",
            Tag::Input => "input",
            Tag::Img => "img",
            Tag::Kbd => "kbd",
            Tag::Label => "label",
            Tag::Li => "li",
            Tag::Link => "link",
            Tag::Meta => "meta",
            Tag::Nav => "nav",
            Tag::Ol => "ol",
            Tag::P => "p",
            Tag::Pre => "pre",
            Tag::Q => "q",
            Tag::Script => "script",
            Tag::Span => "span",
            Tag::Strong => "strong",
            Tag::Sub => "sub",
            Tag::Sup => "sup",
            Tag::Table => "table",
            Tag::Thead => "thead",
            Tag::Tbody => "tbody",
            Tag::Th => "th",
            Tag::Tr => "tr",
            Tag::Td => "td",
            Tag::Title => "title",
            Tag::Ul => "ul",
        }
    }

    /// The tag's spelling as an owned string.
    pub fn to_string(&self) -> (s: String)
        ensures
            s@ == self.spelling(),
    {
        self.as_str().to_string()
    }

    /// Whether the tag is void.
    #[verifier::when_used_as_spec(is_void_spec)]
    pub fn is_void(&self) -> (void: bool)
        ensures
            void == self.is_void_spec(),
    {
        match self {
            Tag::Doctype | Tag::Meta | Tag::Comment | Tag::Br | Tag::Img => true,
            _ => false,
        }
    }

    /// The attributes that `tag` accepts.
    pub fn attributes(tag: &Tag) -> (list: Vec<Attr>)
        ensures
            list@ == tag.attributes_spec(),
    {
        match tag {
            Tag::B | Tag::Body | Tag::Code => copy_attrs(Attr::global()),
            Tag::A => {
                let mut attrs = copy_attrs(Attr::global());
                attrs.push(Attr::Href);
                attrs.push(Attr::Onclick);
                attrs.push(Attr::Rel);
                attrs.push(Attr::Target);
                attrs
            },
            Tag::Button => {
                let mut attrs = copy_attrs(Attr::global());
                attrs.push(Attr::Type);
                attrs
            },
            _ => copy_attrs(Attr::all()),
        }
    }
}

/// An owned copy of a list of attribute kinds.
fn copy_attrs(list: &[Attr]) -> (out: Vec<Attr>)
    ensures
        out@ == list@,
{
    let mut out: Vec<Attr> = Vec::new();
    let mut i: usize = 0;
    while i < list.len()
        invariant
            i <= list.len(),
            out@ == list@.take(i as int),
        decreases list.len() - i,
    {
        out.push(list[i]);
        i += 1;
    }
    out
}

} // verus!
