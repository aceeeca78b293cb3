//! What holds of every element.

use crate::element::{close_tag_text, Element, ElementView};
use crate::tag::Tag;
use crate::text::{lemma_occurs_before_suffix, lemma_occurs_behind_prefix, occurs_in};
use vstd::prelude::*;

verus! {

/// Serialising is a function of the tree alone: whatever two calls of
/// `make_tag` return on two trees of the same value, the two strings hold
/// the same characters. So do the warnings of two calls of `warnings`.
pub proof fn lemma_render_is_deterministic(
    a: Element,
    b: Element,
    first: String,
    second: String,
)
    requires
        a@ == b@,
        call_ensures(Element::make_tag, (&a,), first),
        call_ensures(Element::make_tag, (&b,), second),
    ensures
        first@ == second@,
{
}

/// The same for the warnings: two calls of `warnings` on two trees of the
/// same value return the same warnings in the same order.
pub proof fn lemma_warnings_are_deterministic(
    a: Element,
    b: Element,
    first: Vec<String>,
    second: Vec<String>,
)
    requires
        a@ == b@,
        call_ensures(Element::warnings, (&a,), first),
        call_ensures(Element::warnings, (&b,), second),
    ensures
        first.deep_view() == second.deep_view(),
{
}

/// A void element is written as its opening tag alone: no closing tag
/// follows, and neither its content nor its children are written, whatever
/// they are.
pub proof fn lemma_void_element_is_its_opening_tag(element: ElementView)
    requires
        element.tag.is_void(),
    ensures
        element.render() == element.opening(),
        close_tag_text(element.tag) == Seq::<char>::empty(),
{
}

/// The closing tag that would follow an element of `tag` if one were
/// written: `</name>`.
pub open spec fn closing_tag_of(tag: Tag) -> Seq<char> {
    "</"@ + tag.spelling() + ">"@
}

/// What the opening tag of a void element holds of the caller's own: the
/// value inside it, and, but for a comment, the `>` that ends it.
pub open spec fn opening_tail(element: ElementView) -> Seq<char> {
    if element.tag == Tag::Comment {
        element.opening_value()
    } else {
        element.opening_value() + ">"@
    }
}

/// Serialising a void element never adds its closing tag: `</name>` occurs
/// in what is written if and only if the attributes or the text that the
/// caller put inside the opening tag spell it out. Where they hold no `<`,
/// it does not occur.
pub proof fn lemma_void_element_has_no_closing_tag(element: ElementView)
    requires
        element.tag.is_void(),
    ensures
        occurs_in(closing_tag_of(element.tag), element.render()) <==> occurs_in(
            closing_tag_of(element.tag),
            opening_tail(element),
        ),
        (forall|k: int| 0 <= k < element.opening_value().len() ==> element.opening_value()[k]
            != '<') ==> !occurs_in(closing_tag_of(element.tag), element.render()),
{
    reveal_strlit("<");
    reveal_strlit(">");
    reveal_strlit(" ");
    reveal_strlit("</");
    reveal_strlit("<!-- ");
    reveal_strlit(" -->");
    reveal_strlit("!DOCTYPE");
    reveal_strlit("meta");
    reveal_strlit("!--");
    reveal_strlit("br");
    reveal_strlit("img");
    let tag = element.tag;
    let value = element.opening_value();
    let needle = closing_tag_of(tag);
    assert(needle[0] == '<' && needle[1] == '/');
    if tag == Tag::Comment {
        let prefix = "<!-- "@;
        let suffix = " -->"@;
        assert(element.render() =~= prefix + (value + suffix));
        lemma_occurs_behind_prefix(needle, prefix, value + suffix);
        lemma_occurs_before_suffix(needle, value, suffix);
    } else {
        let prefix = if value.len() > 0 {
            "<"@ + tag.spelling() + " "@
        } else {
            "<"@ + tag.spelling()
        };
        assert(element.render() =~= prefix + (value + ">"@));
        lemma_occurs_behind_prefix(needle, prefix, value + ">"@);
    }
    if forall|k: int| 0 <= k < value.len() ==> value[k] != '<' {
        let tail = opening_tail(element);
        if occurs_in(needle, tail) {
            let at = choose|at: int| crate::text::occurs_at(needle, tail, at);
            assert(tail.subrange(at, at + needle.len())[0] == needle[0]);
        }
    }
}

/// An element of a tag that is not void, with no attributes, no text, no
/// content and no children, is written as its opening tag and its closing
/// tag with nothing between them: `<name></name>`.
pub proof fn lemma_empty_element(element: ElementView)
    requires
        !element.tag.is_void(),
        element.attrs is None,
        element.text is None,
        element.content is None,
        element.children is None,
    ensures
        element.render() == "<"@ + element.tag.spelling() + ">"@ + "</"@
            + element.tag.spelling() + ">"@,
{
    assert(element.rendered_children().flatten() =~= Seq::<char>::empty());
    assert(element.render() =~= "<"@ + element.tag.spelling() + ">"@ + "</"@
        + element.tag.spelling() + ">"@);
}

} // verus!
