//! The set of attributes that one element carries: at most one of each
//! kind.

use crate::attribute::builder::AttrsBuilder;
use crate::attribute::kind::Attr;
use crate::attribute::value::{
    attr_text, Alt, AttrValue, Az, Charset, Class, Content, Data, Defer, Height, Hidden, Href,
    HttpEquiv, Id, Lang, Name, Onclick, Rel, Src, Tabindex, Target, Type, Width,
};
use crate::sequence::lemma_filter_step;
use crate::tag::Tag;
use vstd::prelude::*;
use vstd::string::StringExecFns;

verus! {

/// What an optional field of the set holds, if anything.
pub open spec fn held<T: View<V = AttrValue>>(field: Option<T>) -> Option<AttrValue> {
    match field {
        Some(value) => Some(value@),
        None => None,
    }
}

/// The attributes of one element. Its view is the map from each kind that
/// is set to the value it holds.
#[derive(Debug)]
pub struct Attrs {
    pub alt: Option<Alt>,
    pub az: Option<Az>,
    pub id: Option<Id>,
    pub class: Option<Class>,
    pub charset: Option<Charset>,
    pub content: Option<Content>,
    pub data: Option<Data>,
    pub defer: Option<Defer>,
    pub height: Option<Height>,
    pub hidden: Option<Hidden>,
    pub href: Option<Href>,
    pub http_equiv: Option<HttpEquiv>,
    pub lang: Option<Lang>,
    pub name: Option<Name>,
    pub onclick: Option<Onclick>,
    pub rel: Option<Rel>,
    pub src: Option<Src>,
    pub tabindex: Option<Tabindex>,
    pub target: Option<Target>,
    pub typ: Option<Type>,
    pub width: Option<Width>,
}

impl View for Attrs {
    type V = Map<Attr, AttrValue>;

    open spec fn view(&self) -> Map<Attr, AttrValue> {
        Map::new(|kind: Attr| self.value(kind) is Some, |kind: Attr| self.value(kind)->0)
    }
}

/// The test that decides whether an attribute that is set is written out.
pub open spec fn is_shown(attrs: Map<Attr, AttrValue>, tag: Tag) -> spec_fn(Attr) -> bool {
    |kind: Attr| attrs.contains_key(kind) && tag.accepts(kind)
}

/// The test that decides whether an attribute that is set is left out and
/// reported.
pub open spec fn is_rejected(attrs: Map<Attr, AttrValue>, tag: Tag) -> spec_fn(Attr) -> bool {
    |kind: Attr| attrs.contains_key(kind) && !tag.accepts(kind)
}

/// The kinds that are written out for `tag`: those that are set and that
/// the tag accepts, in canonical order.
pub open spec fn rendered_kinds(attrs: Map<Attr, AttrValue>, tag: Tag) -> Seq<Attr> {
    Attr::canonical_spec().filter(is_shown(attrs, tag))
}

/// The kinds that are left out for `tag`: those that are set and that the
/// tag does not accept, in canonical order.
pub open spec fn rejected_kinds(attrs: Map<Attr, AttrValue>, tag: Tag) -> Seq<Attr> {
    Attr::canonical_spec().filter(is_rejected(attrs, tag))
}

/// The text of each kind as `attrs` holds it.
pub open spec fn text_of(attrs: Map<Attr, AttrValue>) -> spec_fn(Attr) -> Seq<char> {
    |kind: Attr| attr_text(kind, attrs[kind])
}

/// The texts of the attributes written out for `tag`, in canonical order.
pub open spec fn rendered_attrs(attrs: Map<Attr, AttrValue>, tag: Tag) -> Seq<Seq<char>> {
    rendered_kinds(attrs, tag).map_values(text_of(attrs))
}

/// The warning about an attribute that a tag does not accept.
pub open spec fn warning_text(tag: Tag, attr: Attr) -> Seq<char> {
    "HTML tag '"@ + tag.spelling() + "' does not support the '"@ + attr.name() + "' attribute"@
}

/// The warning about each kind on `tag`.
pub open spec fn warning_of(tag: Tag) -> spec_fn(Attr) -> Seq<char> {
    |kind: Attr| warning_text(tag, kind)
}

/// The warnings about the attributes left out for `tag`, one for each, in
/// canonical order.
pub open spec fn attr_warnings(attrs: Map<Attr, AttrValue>, tag: Tag) -> Seq<Seq<char>> {
    rejected_kinds(attrs, tag).map_values(warning_of(tag))
}

/// Checks one attribute against the list of those that a tag accepts.
/// An attribute that is not in the list is an error, whose value is the
/// warning to pass on; nothing is written anywhere.
pub fn validate_attrs(tag: &Tag, check_attribute: &Attr, valid_attributes: &[Attr]) -> (verdict:
    Result<(), String>)
    ensures
        verdict is Ok <==> valid_attributes@.contains(*check_attribute),
        verdict matches Err(warning) ==> warning@ == warning_text(*tag, *check_attribute),
{
    let mut i: usize = 0;
    while i < valid_attributes.len()
        invariant
            i <= valid_attributes.len(),
            forall|j: int| 0 <= j < i ==> valid_attributes@[j] != *check_attribute,
        decreases valid_attributes.len() - i,
    {
        if valid_attributes[i] == *check_attribute {
            return Ok(());
        }
        i += 1;
    }
    let mut warning = "HTML tag '".to_string();
    warning.append(tag.as_str());
    warning.append("' does not support the '");
    warning.append(check_attribute.as_str());
    warning.append("' attribute");
    Err(warning)
}

impl Attrs {
    /// A builder with no attribute set.
    pub fn new() -> (builder: AttrsBuilder)
        ensures
            builder@ == Map::<Attr, AttrValue>::empty(),
    {
        AttrsBuilder::new()
    }

    /// What the set holds for `kind`, if anything.
    pub open spec fn value(&self, kind: Attr) -> Option<AttrValue> {
        match kind {
            Attr::Alt => held(self.alt),
            Attr::Az => held(self.az),
            Attr::Charset => held(self.charset),
            Attr::Content => held(self.content),
            Attr::Class => held(self.class),
            Attr::Data => held(self.data),
            Attr::Defer => held(self.defer),
            Attr::Height => held(self.height),
            Attr::Hidden => held(self.hidden),
            Attr::Href => held(self.href),
            Attr::HttpEquiv => held(self.http_equiv),
            Attr::Id => held(self.id),
            Attr::Lang => held(self.lang),
            Attr::Name => held(self.name),
            Attr::Onclick => held(self.onclick),
            Attr::Src => held(self.src),
            Attr::Tabindex => held(self.tabindex),
            Attr::Target => held(self.target),
            Attr::Type => held(self.typ),
            Attr::Rel => held(self.rel),
            Attr::Width => held(self.width),
        }
    }

    /// Whether `kind` is set.
    pub fn holds(&self, kind: Attr) -> (set: bool)
        ensures
            set == self@.contains_key(kind),
    {
        match kind {
            Attr::Alt => self.alt.is_some(),
            Attr::Az => self.az.is_some(),
            Attr::Charset => self.charset.is_some(),
            Attr::Content => self.content.is_some(),
            Attr::Class => self.class.is_some(),
            Attr::Data => self.data.is_some(),
            Attr::Defer => self.defer.is_some(),
            Attr::Height => self.height.is_some(),
            Attr::Hidden => self.hidden.is_some(),
            Attr::Href => self.href.is_some(),
            Attr::HttpEquiv => self.http_equiv.is_some(),
            Attr::Id => self.id.is_some(),
            Attr::Lang => self.lang.is_some(),
            Attr::Name => self.name.is_some(),
            Attr::Onclick => self.onclick.is_some(),
            Attr::Src => self.src.is_some(),
            Attr::Tabindex => self.tabindex.is_some(),
            Attr::Target => self.target.is_some(),
            Attr::Type => self.typ.is_some(),
            Attr::Rel => self.rel.is_some(),
            Attr::Width => self.width.is_some(),
        }
    }

    /// The text of the attribute of `kind`, where it is set.
    pub fn entry(&self, kind: Attr) -> (text: Option<String>)
        ensures
            text is Some <==> self@.contains_key(kind),
            text matches Some(t) ==> t@ == attr_text(kind, self@[kind]),
    {
        match kind {
            Attr::Alt => match &self.alt {
                Some(held) => Some(held.to_string()),
                None => None,
            },
            Attr::Az => match &self.az {
                Some(held) => Some(held.to_string()),
                None => None,
            },
            Attr::Charset => match &self.charset {
                Some(held) => Some(held.to_string()),
                None => None,
            },
            Attr::Content => match &self.content {
                Some(held) => Some(held.to_string()),
                None => None,
            },
            Attr::Class => match &self.class {
                Some(held) => Some(held.to_string()),
                None => None,
            },
            Attr::Data => match &self.data {
                Some(held) => Some(held.to_string()),
                None => None,
            },
            Attr::Defer => match &self.defer {
                Some(held) => Some(held.to_string()),
                None => None,
            },
            Attr::Height => match &self.height {
                Some(held) => Some(held.to_string()),
                None => None,
            },
            Attr::Hidden => match &self.hidden {
                Some(held) => Some(held.to_string()),
                None => None,
            },
            Attr::Href => match &self.href {
                Some(held) => Some(held.to_string()),
                None => None,
            },
            Attr::HttpEquiv => match &self.http_equiv {
                Some(held) => Some(held.to_string()),
                None => None,
            },
            Attr::Id => match &self.id {
                Some(held) => Some(held.to_string()),
                None => None,
            },
            Attr::Lang => match &self.lang {
                Some(held) => Some(held.to_string()),
                None => None,
            },
            Attr::Name => match &self.name {
                Some(held) => Some(held.to_string()),
                None => None,
            },
            Attr::Onclick => match &self.onclick {
                Some(held) => Some(held.to_string()),
                None => None,
            },
            Attr::Src => match &self.src {
                Some(held) => Some(held.to_string()),
                None => None,
            },
            Attr::Tabindex => match &self.tabindex {
                Some(held) => Some(held.to_string()),
                None => None,
            },
            Attr::Target => match &self.target {
                Some(held) => Some(held.to_string()),
                None => None,
            },
            Attr::Type => match &self.typ {
                Some(held) => Some(held.to_string()),
                None => None,
            },
            Attr::Rel => match &self.rel {
                Some(held) => Some(held.to_string()),
                None => None,
            },
            Attr::Width => match &self.width {
                Some(held) => Some(held.to_string()),
                None => None,
            },
        }
    }

    /// The attributes as they are written inside an opening tag of `tag`:
    /// one text for each kind that is set and that the tag accepts, in
    /// canonical order. A kind that the tag does not accept is left out.
    pub fn get_attrs(&self, tag: &Tag) -> (attributes: Vec<String>)
        ensures
            attributes.deep_view() == rendered_attrs(self@, *tag),
    {
        let accepted = Tag::attributes(tag);
        let order = Attr::canonical();
        let mut attributes: Vec<String> = Vec::new();
        let mut i: usize = 0;
        while i < order.len()
            invariant
                i <= order.len(),
                order@ == Attr::canonical_spec(),
                accepted@ == tag.attributes_spec(),
                attributes.deep_view() == order@.take(i as int).filter(
                    is_shown(self@, *tag),
                ).map_values(text_of(self@)),
            decreases order.len() - i,
        {
            let kind = order[i];
            proof {
                lemma_filter_step(order@, i as int, is_shown(self@, *tag));
                tag.lemma_attributes_list(kind);
            }
            let ghost before = attributes.deep_view();
            match self.entry(kind) {
                Some(text) => {
                    if validate_attrs(tag, &kind, accepted.as_slice()).is_ok() {
                        attributes.push(text);
                        assert(attributes.deep_view() =~= before.push(text@));
                    }
                },
                None => {},
            }
            assert(attributes.deep_view() =~= order@.take(i + 1).filter(
                is_shown(self@, *tag),
            ).map_values(text_of(self@)));
            i += 1;
        }
        assert(order@.take(order.len() as int) =~= order@);
        attributes
    }

    /// The warnings that rendering the set inside a tag of `tag` gives rise
    /// to: one for each kind that is set and that the tag does not accept,
    /// in canonical order.
    pub fn warnings(&self, tag: &Tag) -> (warnings: Vec<String>)
        ensures
            warnings.deep_view() == attr_warnings(self@, *tag),
    {
        let accepted = Tag::attributes(tag);
        let order = Attr::canonical();
        let mut warnings: Vec<String> = Vec::new();
        let mut i: usize = 0;
        while i < order.len()
            invariant
                i <= order.len(),
                order@ == Attr::canonical_spec(),
                accepted@ == tag.attributes_spec(),
                warnings.deep_view() == order@.take(i as int).filter(
                    is_rejected(self@, *tag),
                ).map_values(warning_of(*tag)),
            decreases order.len() - i,
        {
            let kind = order[i];
            proof {
                lemma_filter_step(order@, i as int, is_rejected(self@, *tag));
                tag.lemma_attributes_list(kind);
            }
            let ghost before = warnings.deep_view();
            if self.holds(kind) {
                match validate_attrs(tag, &kind, accepted.as_slice()) {
                    Ok(_) => {},
                    Err(warning) => {
                        warnings.push(warning);
                        assert(warnings.deep_view() =~= before.push(warning@));
                    },
                }
            }
            assert(warnings.deep_view() =~= order@.take(i + 1).filter(
                is_rejected(self@, *tag),
            ).map_values(warning_of(*tag)));
            i += 1;
        }
        assert(order@.take(order.len() as int) =~= order@);
        warnings
    }
}

impl Clone for Attrs {
    fn clone(&self) -> (copy: Self)
        ensures
            copy@ == self@,
    {
        let alt = match &self.alt {
            Some(held) => Some(held.clone()),
            None => None,
        };
        let az = match &self.az {
            Some(held) => Some(held.clone()),
            None => None,
        };
        let id = match &self.id {
            Some(held) => Some(held.clone()),
            None => None,
        };
        let class = match &self.class {
            Some(held) => Some(held.clone()),
            None => None,
        };
        let charset = match &self.charset {
            Some(held) => Some(held.clone()),
            None => None,
        };
        let content = match &self.content {
            Some(held) => Some(held.clone()),
            None => None,
        };
        let data = match &self.data {
            Some(held) => Some(held.clone()),
            None => None,
        };
        let defer = match &self.defer {
            Some(held) => Some(held.clone()),
            None => None,
        };
        let height = match &self.height {
            Some(held) => Some(held.clone()),
            None => None,
        };
        let hidden = match &self.hidden {
            Some(held) => Some(held.clone()),
            None => None,
        };
        let href = match &self.href {
            Some(held) => Some(held.clone()),
            None => None,
        };
        let http_equiv = match &self.http_equiv {
            Some(held) => Some(held.clone()),
            None => None,
        };
        let lang = match &self.lang {
            Some(held) => Some(held.clone()),
            None => None,
        };
        let name = match &self.name {
            Some(held) => Some(held.clone()),
            None => None,
        };
        let onclick = match &self.onclick {
            Some(held) => Some(held.clone()),
            None => None,
        };
        let rel = match &self.rel {
            Some(held) => Some(held.clone()),
            None => None,
        };
        let src = match &self.src {
            Some(held) => Some(held.clone()),
            None => None,
        };
        let tabindex = match &self.tabindex {
            Some(held) => Some(held.clone()),
            None => None,
        };
        let target = match &self.target {
            Some(held) => Some(held.clone()),
            None => None,
        };
        let typ = match &self.typ {
            Some(held) => Some(held.clone()),
            None => None,
        };
        let width = match &self.width {
            Some(held) => Some(held.clone()),
            None => None,
        };
        let copy = Attrs {
            alt, az, id, class, charset, content, data, defer, height, hidden, href,
            http_equiv, lang, name, onclick, rel, src, tabindex, target, typ, width,
        };
        proof {
            lemma_same_values(copy, *self);
        }
        copy
    }
}

/// Two sets whose fields hold the same values have the same view.
pub proof fn lemma_same_values(a: Attrs, b: Attrs)
    requires
        held(a.alt) == held(b.alt),
        held(a.az) == held(b.az),
        held(a.id) == held(b.id),
        held(a.class) == held(b.class),
        held(a.charset) == held(b.charset),
        held(a.content) == held(b.content),
        held(a.data) == held(b.data),
        held(a.defer) == held(b.defer),
        held(a.height) == held(b.height),
        held(a.hidden) == held(b.hidden),
        held(a.href) == held(b.href),
        held(a.http_equiv) == held(b.http_equiv),
        held(a.lang) == held(b.lang),
        held(a.name) == held(b.name),
        held(a.onclick) == held(b.onclick),
        held(a.rel) == held(b.rel),
        held(a.src) == held(b.src),
        held(a.tabindex) == held(b.tabindex),
        held(a.target) == held(b.target),
        held(a.typ) == held(b.typ),
        held(a.width) == held(b.width),
    ensures
        a@ == b@,
{
    assert(forall|kind: Attr| a.value(kind) == b.value(kind));
    assert(a@ =~= b@);
}

impl Default for Attrs {
    /// The empty set.
    fn default() -> (attrs: Attrs)
        ensures
            attrs@ == Map::<Attr, AttrValue>::empty(),
    {
        let attrs = Attrs {
            alt: None,
            az: None,
            id: None,
            class: None,
            charset: None,
            content: None,
            data: None,
            defer: None,
            height: None,
            hidden: None,
            href: None,
            http_equiv: None,
            lang: None,
            name: None,
            onclick: None,
            rel: None,
            src: None,
            tabindex: None,
            target: None,
            typ: None,
            width: None,
        };
        assert(attrs@ =~= Map::<Attr, AttrValue>::empty());
        attrs
    }
}

} // verus!
