//! What holds of every set of attributes and every tag.

use crate::attribute::kind::Attr;
use crate::attribute::set::{
    attr_warnings, is_rejected, is_shown, rejected_kinds, rendered_attrs, rendered_kinds, text_of,
    warning_of, warning_text,
};
use crate::attribute::value::{attr_text, AttrValue};
use crate::sequence::{lemma_filter_contains, lemma_filter_map_step, lemma_filter_no_duplicates};
use crate::tag::Tag;
use crate::text::join;
use vstd::prelude::*;

verus! {

/// The share of one kind in the attribute texts of `tag`: its text where
/// the kind is set and the tag accepts it, nothing otherwise.
pub open spec fn shown(attrs: Map<Attr, AttrValue>, tag: Tag, kind: Attr) -> Seq<Seq<char>> {
    if attrs.contains_key(kind) && tag.accepts(kind) {
        seq![attr_text(kind, attrs[kind])]
    } else {
        Seq::empty()
    }
}

/// The share of one kind in the warnings of `tag`: its warning where the
/// kind is set and the tag does not accept it, nothing otherwise.
pub open spec fn reported(attrs: Map<Attr, AttrValue>, tag: Tag, kind: Attr) -> Seq<Seq<char>> {
    if attrs.contains_key(kind) && !tag.accepts(kind) {
        seq![warning_text(tag, kind)]
    } else {
        Seq::empty()
    }
}

/// The attribute texts, kind by kind: the shares of the kinds, in
/// canonical order.
pub proof fn lemma_rendered_attrs_by_kind(attrs: Map<Attr, AttrValue>, tag: Tag)
    ensures
        rendered_attrs(attrs, tag) == shown(attrs, tag, Attr::Alt) + shown(attrs, tag, Attr::Az)
            + shown(attrs, tag, Attr::Charset) + shown(attrs, tag, Attr::Class)
            + shown(attrs, tag, Attr::Content) + shown(attrs, tag, Attr::Data)
            + shown(attrs, tag, Attr::Defer) + shown(attrs, tag, Attr::Height)
            + shown(attrs, tag, Attr::Hidden) + shown(attrs, tag, Attr::Href)
            + shown(attrs, tag, Attr::HttpEquiv) + shown(attrs, tag, Attr::Id)
            + shown(attrs, tag, Attr::Lang) + shown(attrs, tag, Attr::Name)
            + shown(attrs, tag, Attr::Onclick) + shown(attrs, tag, Attr::Src)
            + shown(attrs, tag, Attr::Tabindex) + shown(attrs, tag, Attr::Target)
            + shown(attrs, tag, Attr::Type) + shown(attrs, tag, Attr::Rel)
            + shown(attrs, tag, Attr::Width),
{
    let order = Attr::canonical_spec();
    reveal(Seq::filter);
    assert(order.take(0).filter(is_shown(attrs, tag)).map_values(text_of(attrs))
        =~= Seq::<Seq<char>>::empty());
    lemma_filter_map_step(order, 0, is_shown(attrs, tag), text_of(attrs));
    lemma_filter_map_step(order, 1, is_shown(attrs, tag), text_of(attrs));
    lemma_filter_map_step(order, 2, is_shown(attrs, tag), text_of(attrs));
    lemma_filter_map_step(order, 3, is_shown(attrs, tag), text_of(attrs));
    lemma_filter_map_step(order, 4, is_shown(attrs, tag), text_of(attrs));
    lemma_filter_map_step(order, 5, is_shown(attrs, tag), text_of(attrs));
    lemma_filter_map_step(order, 6, is_shown(attrs, tag), text_of(attrs));
    lemma_filter_map_step(order, 7, is_shown(attrs, tag), text_of(attrs));
    lemma_filter_map_step(order, 8, is_shown(attrs, tag), text_of(attrs));
    lemma_filter_map_step(order, 9, is_shown(attrs, tag), text_of(attrs));
    lemma_filter_map_step(order, 10, is_shown(attrs, tag), text_of(attrs));
    lemma_filter_map_step(order, 11, is_shown(attrs, tag), text_of(attrs));
    lemma_filter_map_step(order, 12, is_shown(attrs, tag), text_of(attrs));
    lemma_filter_map_step(order, 13, is_shown(attrs, tag), text_of(attrs));
    lemma_filter_map_step(order, 14, is_shown(attrs, tag), text_of(attrs));
    lemma_filter_map_step(order, 15, is_shown(attrs, tag), text_of(attrs));
    lemma_filter_map_step(order, 16, is_shown(attrs, tag), text_of(attrs));
    lemma_filter_map_step(order, 17, is_shown(attrs, tag), text_of(attrs));
    lemma_filter_map_step(order, 18, is_shown(attrs, tag), text_of(attrs));
    lemma_filter_map_step(order, 19, is_shown(attrs, tag), text_of(attrs));
    lemma_filter_map_step(order, 20, is_shown(attrs, tag), text_of(attrs));
    assert(order.take(21) =~= order);
    assert(rendered_attrs(attrs, tag) =~= shown(attrs, tag, Attr::Alt) + shown(attrs, tag, Attr::Az)
            + shown(attrs, tag, Attr::Charset) + shown(attrs, tag, Attr::Class)
            + shown(attrs, tag, Attr::Content) + shown(attrs, tag, Attr::Data)
            + shown(attrs, tag, Attr::Defer) + shown(attrs, tag, Attr::Height)
            + shown(attrs, tag, Attr::Hidden) + shown(attrs, tag, Attr::Href)
            + shown(attrs, tag, Attr::HttpEquiv) + shown(attrs, tag, Attr::Id)
            + shown(attrs, tag, Attr::Lang) + shown(attrs, tag, Attr::Name)
            + shown(attrs, tag, Attr::Onclick) + shown(attrs, tag, Attr::Src)
            + shown(attrs, tag, Attr::Tabindex) + shown(attrs, tag, Attr::Target)
            + shown(attrs, tag, Attr::Type) + shown(attrs, tag, Attr::Rel)
            + shown(attrs, tag, Attr::Width));
}

/// The warnings, kind by kind: the shares of the kinds, in canonical order.
pub proof fn lemma_attr_warnings_by_kind(attrs: Map<Attr, AttrValue>, tag: Tag)
    ensures
        attr_warnings(attrs, tag) == reported(attrs, tag, Attr::Alt) + reported(attrs, tag, Attr::Az)
            + reported(attrs, tag, Attr::Charset) + reported(attrs, tag, Attr::Class)
            + reported(attrs, tag, Attr::Content) + reported(attrs, tag, Attr::Data)
            + reported(attrs, tag, Attr::Defer) + reported(attrs, tag, Attr::Height)
            + reported(attrs, tag, Attr::Hidden) + reported(attrs, tag, Attr::Href)
            + reported(attrs, tag, Attr::HttpEquiv) + reported(attrs, tag, Attr::Id)
            + reported(attrs, tag, Attr::Lang) + reported(attrs, tag, Attr::Name)
            + reported(attrs, tag, Attr::Onclick) + reported(attrs, tag, Attr::Src)
            + reported(attrs, tag, Attr::Tabindex) + reported(attrs, tag, Attr::Target)
            + reported(attrs, tag, Attr::Type) + reported(attrs, tag, Attr::Rel)
            + reported(attrs, tag, Attr::Width),
{
    let order = Attr::canonical_spec();
    reveal(Seq::filter);
    assert(order.take(0).filter(is_rejected(attrs, tag)).map_values(warning_of(tag))
        =~= Seq::<Seq<char>>::empty());
    lemma_filter_map_step(order, 0, is_rejected(attrs, tag), warning_of(tag));
    lemma_filter_map_step(order, 1, is_rejected(attrs, tag), warning_of(tag));
    lemma_filter_map_step(order, 2, is_rejected(attrs, tag), warning_of(tag));
    lemma_filter_map_step(order, 3, is_rejected(attrs, tag), warning_of(tag));
    lemma_filter_map_step(order, 4, is_rejected(attrs, tag), warning_of(tag));
    lemma_filter_map_step(order, 5, is_rejected(attrs, tag), warning_of(tag));
    lemma_filter_map_step(order, 6, is_rejected(attrs, tag), warning_of(tag));
    lemma_filter_map_step(order, 7, is_rejected(attrs, tag), warning_of(tag));
    lemma_filter_map_step(order, 8, is_rejected(attrs, tag), warning_of(tag));
    lemma_filter_map_step(order, 9, is_rejected(attrs, tag), warning_of(tag));
    lemma_filter_map_step(order, 10, is_rejected(attrs, tag), warning_of(tag));
    lemma_filter_map_step(order, 11, is_rejected(attrs, tag), warning_of(tag));
    lemma_filter_map_step(order, 12, is_rejected(attrs, tag), warning_of(tag));
    lemma_filter_map_step(order, 13, is_rejected(attrs, tag), warning_of(tag));
    lemma_filter_map_step(order, 14, is_rejected(attrs, tag), warning_of(tag));
    lemma_filter_map_step(order, 15, is_rejected(attrs, tag), warning_of(tag));
    lemma_filter_map_step(order, 16, is_rejected(attrs, tag), warning_of(tag));
    lemma_filter_map_step(order, 17, is_rejected(attrs, tag), warning_of(tag));
    lemma_filter_map_step(order, 18, is_rejected(attrs, tag), warning_of(tag));
    lemma_filter_map_step(order, 19, is_rejected(attrs, tag), warning_of(tag));
    lemma_filter_map_step(order, 20, is_rejected(attrs, tag), warning_of(tag));
    assert(order.take(21) =~= order);
    assert(attr_warnings(attrs, tag) =~= reported(attrs, tag, Attr::Alt) + reported(attrs, tag, Attr::Az)
            + reported(attrs, tag, Attr::Charset) + reported(attrs, tag, Attr::Class)
            + reported(attrs, tag, Attr::Content) + reported(attrs, tag, Attr::Data)
            + reported(attrs, tag, Attr::Defer) + reported(attrs, tag, Attr::Height)
            + reported(attrs, tag, Attr::Hidden) + reported(attrs, tag, Attr::Href)
            + reported(attrs, tag, Attr::HttpEquiv) + reported(attrs, tag, Attr::Id)
            + reported(attrs, tag, Attr::Lang) + reported(attrs, tag, Attr::Name)
            + reported(attrs, tag, Attr::Onclick) + reported(attrs, tag, Attr::Src)
            + reported(attrs, tag, Attr::Tabindex) + reported(attrs, tag, Attr::Target)
            + reported(attrs, tag, Attr::Type) + reported(attrs, tag, Attr::Rel)
            + reported(attrs, tag, Attr::Width));
}

/// Which kinds are written out and which are reported. A kind is written
/// out if and only if it is set and the tag accepts it; it is reported if
/// and only if it is set and the tag does not accept it; and no kind is
/// written out twice or reported twice.
pub proof fn lemma_kinds_are_sorted_out(attrs: Map<Attr, AttrValue>, tag: Tag, kind: Attr)
    ensures
        rendered_kinds(attrs, tag).contains(kind) <==> attrs.contains_key(kind) && tag.accepts(
            kind,
        ),
        rejected_kinds(attrs, tag).contains(kind) <==> attrs.contains_key(kind) && !tag.accepts(
            kind,
        ),
        rendered_kinds(attrs, tag).no_duplicates(),
        rejected_kinds(attrs, tag).no_duplicates(),
        rendered_attrs(attrs, tag).len() == rendered_kinds(attrs, tag).len(),
        attr_warnings(attrs, tag).len() == rejected_kinds(attrs, tag).len(),
{
    let order = Attr::canonical_spec();
    Attr::lemma_canonical_order();
    assert(order[kind.rank()] == kind);
    lemma_filter_contains(order, is_shown(attrs, tag), kind);
    lemma_filter_contains(order, is_rejected(attrs, tag), kind);
    lemma_filter_no_duplicates(order, is_shown(attrs, tag));
    lemma_filter_no_duplicates(order, is_rejected(attrs, tag));
}

/// The attributes joined by spaces are the empty text only where no
/// attribute is written: each attribute's text holds at least its name.
pub proof fn lemma_attribute_line_is_empty_only_without_attributes(
    attrs: Map<Attr, AttrValue>,
    tag: Tag,
)
    ensures
        join(rendered_attrs(attrs, tag), " "@).len() == 0 <==> rendered_attrs(attrs, tag).len()
            == 0,
{
    let texts = rendered_attrs(attrs, tag);
    if texts.len() > 0 {
        let kind = rendered_kinds(attrs, tag).last();
        kind.lemma_name_is_not_empty();
        assert(texts.last() == attr_text(kind, attrs[kind]));
        assert(texts.last().len() > 0);
    }
}

/// An attribute that the tag does not accept is never written out, and is
/// reported exactly once. Whatever `attrs` held before, once `kind` is set
/// to `value` and `tag` does not accept `kind`: no attribute text of `tag`
/// stems from `kind`, and exactly one warning does, which names the tag and
/// the kind.
pub proof fn lemma_illegal_attribute_is_dropped(
    attrs: Map<Attr, AttrValue>,
    tag: Tag,
    kind: Attr,
    value: AttrValue,
)
    requires
        !tag.accepts(kind),
    ensures
        forall|i: int|
            0 <= i < rendered_attrs(attrs.insert(kind, value), tag).len() ==> rendered_kinds(
                attrs.insert(kind, value),
                tag,
            )[i] != kind,
        exists|i: int|
            {
                &&& 0 <= i < attr_warnings(attrs.insert(kind, value), tag).len()
                &&& #[trigger] rejected_kinds(attrs.insert(kind, value), tag)[i] == kind
                &&& attr_warnings(attrs.insert(kind, value), tag)[i] == warning_text(tag, kind)
                &&& forall|j: int|
                    0 <= j < attr_warnings(attrs.insert(kind, value), tag).len()
                        && rejected_kinds(attrs.insert(kind, value), tag)[j] == kind ==> j == i
            },
{
    let set = attrs.insert(kind, value);
    lemma_kinds_are_sorted_out(set, tag, kind);
    let rejected = rejected_kinds(set, tag);
    let i = choose|i: int| 0 <= i < rejected.len() && rejected[i] == kind;
    assert(rejected[i] == kind);
    assert(attr_warnings(set, tag)[i] == warning_text(tag, kind));
}

/// The order in which two attributes of different kinds are set does not
/// matter: the set is the same, and so is all that is written from it.
pub proof fn lemma_setting_order_is_irrelevant(
    attrs: Map<Attr, AttrValue>,
    first: Attr,
    first_value: AttrValue,
    second: Attr,
    second_value: AttrValue,
    tag: Tag,
)
    requires
        first != second,
    ensures
        attrs.insert(first, first_value).insert(second, second_value) == attrs.insert(
            second,
            second_value,
        ).insert(first, first_value),
        rendered_attrs(attrs.insert(first, first_value).insert(second, second_value), tag)
            == rendered_attrs(
            attrs.insert(second, second_value).insert(first, first_value),
            tag,
        ),
{
    assert(attrs.insert(first, first_value).insert(second, second_value) =~= attrs.insert(
        second,
        second_value,
    ).insert(first, first_value));
}

/// Setting a kind twice keeps the later value alone.
pub proof fn lemma_last_write_wins(
    attrs: Map<Attr, AttrValue>,
    kind: Attr,
    earlier: AttrValue,
    later: AttrValue,
)
    ensures
        attrs.insert(kind, earlier).insert(kind, later) == attrs.insert(kind, later),
{
    assert(attrs.insert(kind, earlier).insert(kind, later) =~= attrs.insert(kind, later));
}

} // verus!
