//! The element tree and its serialisation.

pub mod builder;
pub mod laws;
pub mod shorthand;

pub use builder::ElementBuilder;

use crate::attribute::set::{attr_warnings, rendered_attrs};
use crate::attribute::{Attr, AttrValue, Attrs};
use crate::tag::Tag;
use crate::text::{append_all, extend_strings, join, join_strings};
use vstd::prelude::*;
use vstd::string::StringExecFns;

verus! {

/// An element as a mathematical value: what an `Element` or an
/// `ElementBuilder` stands for.
pub struct ElementView {
    pub tag: Tag,
    pub attrs: Option<Map<Attr, AttrValue>>,
    pub text: Option<Seq<char>>,
    pub content: Option<Seq<char>>,
    pub children: Option<Seq<ElementView>>,
}

/// The opening tag of `tag` around `value`. A comment is written
/// `<!-- value -->`; any other tag `<name value>`, or `<name>` where the
/// value is empty.
pub open spec fn open_tag_text(tag: Tag, value: Seq<char>) -> Seq<char> {
    if tag == Tag::Comment {
        "<!-- "@ + value + " -->"@
    } else if value.len() > 0 {
        "<"@ + tag.spelling() + " "@ + value + ">"@
    } else {
        "<"@ + tag.spelling() + ">"@
    }
}

/// The closing tag of `tag`: `</name>`, and nothing for a void tag.
pub open spec fn close_tag_text(tag: Tag) -> Seq<char> {
    if tag.is_void() {
        Seq::empty()
    } else {
        "</"@ + tag.spelling() + ">"@
    }
}

/// The serialisation of each element of a sequence, in order.
pub open spec fn render_each(elements: Seq<ElementView>) -> Seq<Seq<char>> {
    elements.map_values(|element: ElementView| element.render())
}

/// The warnings of each element of a sequence, in order.
pub open spec fn warnings_each(elements: Seq<ElementView>) -> Seq<Seq<Seq<char>>> {
    elements.map_values(|element: ElementView| element.warnings())
}

/// The views of the elements of a sequence, in order.
pub open spec fn views(elements: Seq<Element>) -> Seq<ElementView> {
    elements.map_values(|element: Element| element@)
}

impl ElementView {
    /// The texts of the attributes written in the opening tag.
    pub open spec fn attribute_texts(self) -> Seq<Seq<char>> {
        match self.attrs {
            Some(attrs) => rendered_attrs(attrs, self.tag),
            None => Seq::empty(),
        }
    }

    /// What stands inside the opening tag after the name: the attributes,
    /// joined by single spaces, where any is written; else the text, where
    /// there is one; else nothing.
    pub open spec fn opening_value(self) -> Seq<char> {
        if self.attribute_texts().len() > 0 {
            join(self.attribute_texts(), " "@)
        } else {
            match self.text {
                Some(text) => text,
                None => Seq::empty(),
            }
        }
    }

    /// The opening tag of the element.
    pub open spec fn opening(self) -> Seq<char> {
        open_tag_text(self.tag, self.opening_value())
    }

    /// The content between the opening tag and the children.
    pub open spec fn content_text(self) -> Seq<char> {
        match self.content {
            Some(content) => content,
            None => Seq::empty(),
        }
    }

    /// The serialisation of each child, in order: `render_each` of the
    /// children, as `lemma_rendered_children` shows.
    pub open spec fn rendered_children(self) -> Seq<Seq<char>>
        decreases self, 0int,
    {
        match self.children {
            Some(children) => Seq::new(
                children.len(),
                |i: int|
                    if 0 <= i < children.len() {
                        children[i].render()
                    } else {
                        Seq::empty()
                    },
            ),
            None => Seq::empty(),
        }
    }

    /// The serialisation of the element: the opening tag, then, unless the
    /// tag is void, the content, the children in order and the closing tag,
    /// with nothing between them. The content and the children of a void
    /// element are not written: that is meant, and no error.
    pub open spec fn render(self) -> Seq<char>
        decreases self, 1int,
    {
        if self.tag.is_void() {
            self.opening()
        } else {
            self.opening() + self.content_text() + self.rendered_children().flatten()
                + close_tag_text(self.tag)
        }
    }

    /// The warnings about the element's own attributes.
    pub open spec fn own_warnings(self) -> Seq<Seq<char>> {
        match self.attrs {
            Some(attrs) => attr_warnings(attrs, self.tag),
            None => Seq::empty(),
        }
    }

    /// The warnings of each child, in order: `warnings_each` of the
    /// children, as `lemma_child_warnings` shows.
    pub open spec fn child_warnings(self) -> Seq<Seq<Seq<char>>>
        decreases self, 0int,
    {
        match self.children {
            Some(children) => Seq::new(
                children.len(),
                |i: int|
                    if 0 <= i < children.len() {
                        children[i].warnings()
                    } else {
                        Seq::empty()
                    },
            ),
            None => Seq::empty(),
        }
    }

    /// The warnings that serialising the element gives rise to: those of
    /// the children, in order, then its own. The children of a void element
    /// are not written and give none.
    pub open spec fn warnings(self) -> Seq<Seq<char>>
        decreases self, 1int,
    {
        if self.tag.is_void() {
            self.own_warnings()
        } else {
            self.child_warnings().flatten() + self.own_warnings()
        }
    }

    /// The children's serialisations are `render_each` of the children.
    pub proof fn lemma_rendered_children(self)
        ensures
            self.rendered_children() == match self.children {
                Some(children) => render_each(children),
                None => Seq::empty(),
            },
    {
        match self.children {
            Some(children) => {
                assert(self.rendered_children() =~= render_each(children));
            },
            None => {},
        }
    }

    /// The children's warnings are `warnings_each` of the children.
    pub proof fn lemma_child_warnings(self)
        ensures
            self.child_warnings() == match self.children {
                Some(children) => warnings_each(children),
                None => Seq::empty(),
            },
    {
        match self.children {
            Some(children) => {
                assert(self.child_warnings() =~= warnings_each(children));
            },
            None => {},
        }
    }
}

/// One node of the tree. It owns its attributes, its strings and its
/// children, and nothing changes it once it is built.
#[derive(Debug)]
pub struct Element {
    pub tag: Tag,
    pub attrs: Option<Attrs>,
    pub text: Option<String>,
    pub content: Option<String>,
    pub children: Option<Vec<Element>>,
}

impl View for Element {
    type V = ElementView;

    open spec fn view(&self) -> ElementView {
        self.model()
    }
}

impl Clone for Element {
    fn clone(&self) -> (copy: Self)
        ensures
            copy@ == self@,
        decreases self,
    {
        let copy = Element {
            tag: self.tag,
            attrs: self.attrs.clone(),
            text: self.text.clone(),
            content: self.content.clone(),
            children: match &self.children {
                Some(children) => Some(Element::clone_all(children)),
                None => None,
            },
        };
        proof {
            self.lemma_children_view();
            copy.lemma_children_view();
        }
        copy
    }
}

impl Element {
    /// The element as a mathematical value: each string by its characters,
    /// the attributes by their map, each child by its own value.
    pub open spec fn model(&self) -> ElementView
        decreases self,
    {
        ElementView {
            tag: self.tag,
            attrs: match self.attrs {
                Some(attrs) => Some(attrs@),
                None => None,
            },
            text: match self.text {
                Some(text) => Some(text@),
                None => None,
            },
            content: match self.content {
                Some(content) => Some(content@),
                None => None,
            },
            children: match self.children {
                Some(children) => Some(
                    Seq::new(
                        children.len() as nat,
                        |i: int|
                            if 0 <= i < children.len() {
                                children[i].model()
                            } else {
                                arbitrary()
                            },
                    ),
                ),
                None => None,
            },
        }
    }

    /// The view of an element's children is the sequence of the children's
    /// views.
    pub proof fn lemma_children_view(&self)
        ensures
            self@.children == match self.children {
                Some(children) => Some(views(children@)),
                None => None,
            },
    {
        match self.children {
            Some(children) => {
                assert(self@.children->0 =~= views(children@));
            },
            None => {},
        }
    }

    /// A copy of each element of `elements`, in order.
    pub fn clone_all(elements: &Vec<Element>) -> (copies: Vec<Element>)
        ensures
            views(copies@) == views(elements@),
        decreases elements,
    {
        let mut copies: Vec<Element> = Vec::new();
        let mut i: usize = 0;
        while i < elements.len()
            invariant
                i <= elements.len(),
                views(copies@) == views(elements@.take(i as int)),
            decreases elements.len() - i,
        {
            let ghost before = views(copies@);
            let copy = elements[i].clone();
            copies.push(copy);
            assert(views(copies@) =~= before.push(copy@));
            assert(views(copies@) =~= views(elements@.take(i + 1)));
            i += 1;
        }
        assert(elements@.take(elements.len() as int) =~= elements@);
        copies
    }

    /// The opening tag of `tag` around `value`.
    pub fn open_tag(tag: &Tag, value: &str) -> (out: String)
        ensures
            out@ == open_tag_text(*tag, value@),
    {
        match tag {
            Tag::Comment => {
                let mut out = "<!-- ".to_string();
                out.append(value);
                out.append(" -->");
                out
            },
            _ => {
                let mut out = "<".to_string();
                out.append(tag.as_str());
                if !value.is_empty() {
                    out.append(" ");
                    out.append(value);
                }
                out.append(">");
                assert(out@ =~= open_tag_text(*tag, value@));
                out
            },
        }
    }

    /// The closing tag of `tag`; empty for a void tag.
    pub fn close_tag(tag: &Tag) -> (out: String)
        ensures
            out@ == close_tag_text(*tag),
    {
        if tag.is_void() {
            String::new()
        } else {
            let mut out = "</".to_string();
            out.append(tag.as_str());
            out.append(">");
            out
        }
    }

    /// The serialisation of the element and of all below it.
    pub fn make_tag(&self) -> (out: String)
        ensures
            out@ == self@.render(),
        decreases self,
    {
        let attributes = match &self.attrs {
            Some(attrs) => attrs.get_attrs(&self.tag),
            None => Vec::new(),
        };
        assert(attributes.deep_view() =~= self@.attribute_texts());
        let mut out = if !attributes.is_empty() {
            Element::open_tag(&self.tag, join_strings(&attributes, " ").as_str())
        } else {
            match &self.text {
                Some(text) => Element::open_tag(&self.tag, text.as_str()),
                None => {
                    proof {
                        reveal_strlit("");
                    }
                    Element::open_tag(&self.tag, "")
                },
            }
        };
        assert(out@ == self@.opening());
        if !self.tag.is_void() {
            match &self.content {
                Some(content) => out.append(content.as_str()),
                None => {},
            }
            assert(out@ =~= self@.opening() + self@.content_text());
            proof {
                self.lemma_children_view();
                self@.lemma_rendered_children();
            }
            match &self.children {
                Some(children) => {
                    let rendered = Element::make_tags(children);
                    append_all(&mut out, &rendered);
                },
                None => {
                    assert(self@.rendered_children().flatten() =~= Seq::<char>::empty());
                },
            }
            assert(out@ =~= self@.opening() + self@.content_text()
                + self@.rendered_children().flatten());
            out.append(Element::close_tag(&self.tag).as_str());
        }
        out
    }

    /// The serialisation of each element of `elements`, in order.
    pub fn make_tags(elements: &Vec<Element>) -> (out: Vec<String>)
        ensures
            out.deep_view() == render_each(views(elements@)),
        decreases elements,
    {
        let mut out: Vec<String> = Vec::new();
        let mut i: usize = 0;
        while i < elements.len()
            invariant
                i <= elements.len(),
                out.deep_view() == render_each(views(elements@.take(i as int))),
            decreases elements.len() - i,
        {
            let ghost before = out.deep_view();
            let piece = elements[i].make_tag();
            out.push(piece);
            assert(out.deep_view() =~= before.push(piece@));
            assert(out.deep_view() =~= render_each(views(elements@.take(i + 1))));
            i += 1;
        }
        assert(elements@.take(elements.len() as int) =~= elements@);
        out
    }

    /// The serialisation of the element, as `make_tag` gives it.
    pub fn to_string(&self) -> (out: String)
        ensures
            out@ == self@.render(),
    {
        self.make_tag()
    }

    /// The warnings that serialising the element gives rise to, in the
    /// order in which the attributes are met: each child's, then the
    /// element's own. Nothing is written anywhere: the caller passes them
    /// on.
    pub fn warnings(&self) -> (out: Vec<String>)
        ensures
            out.deep_view() == self@.warnings(),
        decreases self,
    {
        let mut out: Vec<String> = Vec::new();
        if !self.tag.is_void() {
            proof {
                self.lemma_children_view();
                self@.lemma_child_warnings();
            }
            match &self.children {
                Some(children) => {
                    out = Element::all_warnings(children);
                },
                None => {
                    assert(self@.child_warnings().flatten() =~= Seq::<Seq<char>>::empty());
                },
            }
        }
        match &self.attrs {
            Some(attrs) => {
                let own = attrs.warnings(&self.tag);
                extend_strings(&mut out, own);
            },
            None => {},
        }
        assert(out.deep_view() =~= self@.warnings());
        out
    }

    /// The warnings of each element of `elements`, in order, in one list.
    pub fn all_warnings(elements: &Vec<Element>) -> (out: Vec<String>)
        ensures
            out.deep_view() == warnings_each(views(elements@)).flatten(),
        decreases elements,
    {
        let mut out: Vec<String> = Vec::new();
        let mut i: usize = 0;
        proof {
            assert(warnings_each(views(elements@.take(0))) =~= Seq::<Seq<Seq<char>>>::empty());
        }
        while i < elements.len()
            invariant
                i <= elements.len(),
                out.deep_view() == warnings_each(views(elements@.take(i as int))).flatten(),
            decreases elements.len() - i,
        {
            let more = elements[i].warnings();
            proof {
                let done = warnings_each(views(elements@.take(i as int)));
                assert(warnings_each(views(elements@.take(i + 1))) =~= done.push(
                    more.deep_view(),
                ));
                done.lemma_flatten_push(more.deep_view());
            }
            extend_strings(&mut out, more);
            i += 1;
        }
        assert(elements@.take(elements.len() as int) =~= elements@);
        out
    }
}

} // verus!
