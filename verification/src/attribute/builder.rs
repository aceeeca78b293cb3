//! Building a set of attributes one setter at a time.

use crate::attribute::kind::Attr;
use crate::attribute::set::Attrs;
use crate::attribute::value::{
    Alt, AttrValue, Az, Charset, Class, Content, Data, Defer, Height, Hidden, HiddenValue, Href,
    HttpEquiv, Id, Lang, LinkTarget, Name, Onclick, Rel, Src, Tabindex, Target, Type, Width,
};
use crate::text::{decimal, decimal_string};
use vstd::prelude::*;

verus! {

/// A set of attributes under construction. Each setter sets one kind and
/// leaves the others as they are; setting a kind twice keeps the later
/// value. Its view is that of the set it would build.
pub struct AttrsBuilder {
    pub alt: Option<Alt>,
    pub az: Option<Az>,
    pub charset: Option<Charset>,
    pub class: Option<Class>,
    pub content: Option<Content>,
    pub data: Option<Data>,
    pub defer: Option<Defer>,
    pub height: Option<Height>,
    pub hidden: Option<Hidden>,
    pub href: Option<Href>,
    pub http_equiv: Option<HttpEquiv>,
    pub id: Option<Id>,
    pub lang: Option<Lang>,
    pub name: Option<Name>,
    pub onclick: Option<Onclick>,
    pub rel: Option<Rel>,
    pub src: Option<Src>,
    pub target: Option<Target>,
    pub tabindex: Option<Tabindex>,
    pub typ: Option<Type>,
    pub width: Option<Width>,
}

impl View for AttrsBuilder {
    type V = Map<Attr, AttrValue>;

    open spec fn view(&self) -> Map<Attr, AttrValue> {
        self.built()@
    }
}

impl Default for AttrsBuilder {
    fn default() -> (builder: Self)
        ensures
            builder@ == Map::<Attr, AttrValue>::empty(),
    {
        Self::new()
    }
}

impl AttrsBuilder {
    /// The set that `build` returns.
    pub open spec fn built(&self) -> Attrs {
        Attrs {
            alt: self.alt,
            az: self.az,
            id: self.id,
            class: self.class,
            charset: self.charset,
            content: self.content,
            data: self.data,
            defer: self.defer,
            height: self.height,
            hidden: self.hidden,
            href: self.href,
            http_equiv: self.http_equiv,
            lang: self.lang,
            name: self.name,
            onclick: self.onclick,
            rel: self.rel,
            src: self.src,
            tabindex: self.tabindex,
            target: self.target,
            typ: self.typ,
            width: self.width,
        }
    }

    /// A builder with no attribute set.
    pub fn new() -> (builder: Self)
        ensures
            builder@ == Map::<Attr, AttrValue>::empty(),
    {
        let builder = AttrsBuilder {
            alt: None,
            az: None,
            charset: None,
            class: None,
            content: None,
            data: None,
            defer: None,
            height: None,
            hidden: None,
            href: None,
            http_equiv: None,
            id: None,
            lang: None,
            name: None,
            onclick: None,
            rel: None,
            src: None,
            target: None,
            tabindex: None,
            typ: None,
            width: None,
        };
        assert(builder@ =~= Map::<Attr, AttrValue>::empty());
        builder
    }

    /// Sets the alternate text. A value set before is replaced.
    pub fn alt(self, alt: &str) -> (builder: Self)
        ensures
            builder@ == self@.insert(Attr::Alt, AttrValue::Text(alt@)),
    {
        let builder = AttrsBuilder { alt: Some(Alt(alt.to_string())), ..self };
        assert(builder@ =~= self@.insert(Attr::Alt, AttrValue::Text(alt@)));
        builder
    }

    /// Sets the preload destination, written `as`. A value set before is replaced.
    pub fn az(self, az: &str) -> (builder: Self)
        ensures
            builder@ == self@.insert(Attr::Az, AttrValue::Text(az@)),
    {
        let builder = AttrsBuilder { az: Some(Az(az.to_string())), ..self };
        assert(builder@ =~= self@.insert(Attr::Az, AttrValue::Text(az@)));
        builder
    }

    /// Sets the character set. A value set before is replaced.
    pub fn charset(self, charset: &str) -> (builder: Self)
        ensures
            builder@ == self@.insert(Attr::Charset, AttrValue::Text(charset@)),
    {
        let builder = AttrsBuilder { charset: Some(Charset(charset.to_string())), ..self };
        assert(builder@ =~= self@.insert(Attr::Charset, AttrValue::Text(charset@)));
        builder
    }

    /// Sets the meta content. A value set before is replaced.
    pub fn content(self, content: &str) -> (builder: Self)
        ensures
            builder@ == self@.insert(Attr::Content, AttrValue::Text(content@)),
    {
        let builder = AttrsBuilder { content: Some(Content(content.to_string())), ..self };
        assert(builder@ =~= self@.insert(Attr::Content, AttrValue::Text(content@)));
        builder
    }

    /// Sets the class names, in the order given. A list set before is
    /// replaced, not added to.
    pub fn class(self, class: Vec<&str>) -> (builder: Self)
        ensures
            builder@ == self@.insert(Attr::Class, AttrValue::List(class.deep_view())),
    {
        let mut names: Vec<String> = Vec::new();
        let mut i: usize = 0;
        while i < class.len()
            invariant
                i <= class.len(),
                names.deep_view() == class.deep_view().take(i as int),
            decreases class.len() - i,
        {
            let ghost before = names.deep_view();
            names.push(class[i].to_string());
            assert(names.deep_view() =~= before.push(class[i as int]@));
            assert(names.deep_view() =~= class.deep_view().take(i + 1));
            i += 1;
        }
        assert(names.deep_view() =~= class.deep_view());
        let builder = AttrsBuilder { class: Some(Class(names)), ..self };
        assert(builder@ =~= self@.insert(Attr::Class, AttrValue::List(class.deep_view())));
        builder
    }

    /// Sets the one `data-*` attribute: `key` is the part of its name after
    /// `data-`. A pair set before is replaced.
    pub fn data(self, key: &str, value: &str) -> (builder: Self)
        ensures
            builder@ == self@.insert(Attr::Data, AttrValue::Keyed(key@, value@)),
    {
        let builder = AttrsBuilder { data: Some(Data(key.to_string(), value.to_string())), ..self };
        assert(builder@ =~= self@.insert(Attr::Data, AttrValue::Keyed(key@, value@)));
        builder
    }

    /// Marks the element as deferred.
    pub fn defer(self) -> (builder: Self)
        ensures
            builder@ == self@.insert(Attr::Defer, AttrValue::Flag),
    {
        let builder = AttrsBuilder { defer: Some(Defer), ..self };
        assert(builder@ =~= self@.insert(Attr::Defer, AttrValue::Flag));
        builder
    }

    /// Sets the height. A value set before is replaced.
    pub fn height(self, height: &str) -> (builder: Self)
        ensures
            builder@ == self@.insert(Attr::Height, AttrValue::Text(height@)),
    {
        let builder = AttrsBuilder { height: Some(Height(height.to_string())), ..self };
        assert(builder@ =~= self@.insert(Attr::Height, AttrValue::Text(height@)));
        builder
    }

    /// Sets the visibility state. A state set before is replaced.
    pub fn hidden(self, hidden: HiddenValue) -> (builder: Self)
        ensures
            builder@ == self@.insert(Attr::Hidden, AttrValue::Text(hidden.keyword())),
    {
        let builder = AttrsBuilder { hidden: Some(Hidden(hidden.to_string())), ..self };
        assert(builder@ =~= self@.insert(Attr::Hidden, AttrValue::Text(hidden.keyword())));
        builder
    }

    /// Sets the hyperlink reference. A value set before is replaced.
    pub fn href(self, href: &str) -> (builder: Self)
        ensures
            builder@ == self@.insert(Attr::Href, AttrValue::Text(href@)),
    {
        let builder = AttrsBuilder { href: Some(Href(href.to_string())), ..self };
        assert(builder@ =~= self@.insert(Attr::Href, AttrValue::Text(href@)));
        builder
    }

    /// Sets the HTTP header that a meta element stands in for. A value set before is replaced.
    pub fn http_equiv(self, http_equiv: &str) -> (builder: Self)
        ensures
            builder@ == self@.insert(Attr::HttpEquiv, AttrValue::Text(http_equiv@)),
    {
        let builder = AttrsBuilder { http_equiv: Some(HttpEquiv(http_equiv.to_string())), ..self };
        assert(builder@ =~= self@.insert(Attr::HttpEquiv, AttrValue::Text(http_equiv@)));
        builder
    }

    /// Sets the identifier. A value set before is replaced.
    pub fn id(self, id: &str) -> (builder: Self)
        ensures
            builder@ == self@.insert(Attr::Id, AttrValue::Text(id@)),
    {
        let builder = AttrsBuilder { id: Some(Id(id.to_string())), ..self };
        assert(builder@ =~= self@.insert(Attr::Id, AttrValue::Text(id@)));
        builder
    }

    /// Sets the language. A value set before is replaced.
    pub fn lang(self, lang: &str) -> (builder: Self)
        ensures
            builder@ == self@.insert(Attr::Lang, AttrValue::Text(lang@)),
    {
        let builder = AttrsBuilder { lang: Some(Lang(lang.to_string())), ..self };
        assert(builder@ =~= self@.insert(Attr::Lang, AttrValue::Text(lang@)));
        builder
    }

    /// Sets the name. A value set before is replaced.
    pub fn name(self, name: &str) -> (builder: Self)
        ensures
            builder@ == self@.insert(Attr::Name, AttrValue::Text(name@)),
    {
        let builder = AttrsBuilder { name: Some(Name(name.to_string())), ..self };
        assert(builder@ =~= self@.insert(Attr::Name, AttrValue::Text(name@)));
        builder
    }

    /// Sets the click handler. A value set before is replaced.
    pub fn onclick(self, onclick: &str) -> (builder: Self)
        ensures
            builder@ == self@.insert(Attr::Onclick, AttrValue::Text(onclick@)),
    {
        let builder = AttrsBuilder { onclick: Some(Onclick(onclick.to_string())), ..self };
        assert(builder@ =~= self@.insert(Attr::Onclick, AttrValue::Text(onclick@)));
        builder
    }

    /// Sets the relationship. A value set before is replaced.
    pub fn rel(self, rel: &str) -> (builder: Self)
        ensures
            builder@ == self@.insert(Attr::Rel, AttrValue::Text(rel@)),
    {
        let builder = AttrsBuilder { rel: Some(Rel(rel.to_string())), ..self };
        assert(builder@ =~= self@.insert(Attr::Rel, AttrValue::Text(rel@)));
        builder
    }

    /// Sets the source. A value set before is replaced.
    pub fn src(self, src: &str) -> (builder: Self)
        ensures
            builder@ == self@.insert(Attr::Src, AttrValue::Text(src@)),
    {
        let builder = AttrsBuilder { src: Some(Src(src.to_string())), ..self };
        assert(builder@ =~= self@.insert(Attr::Src, AttrValue::Text(src@)));
        builder
    }

    /// Sets the tab index, held as its decimal numeral. An index set before
    /// is replaced.
    pub fn tabindex(self, tabindex: i16) -> (builder: Self)
        ensures
            builder@ == self@.insert(Attr::Tabindex, AttrValue::Text(decimal(tabindex as int))),
    {
        let builder = AttrsBuilder { tabindex: Some(Tabindex(decimal_string(tabindex))), ..self };
        assert(builder@ =~= self@.insert(
            Attr::Tabindex,
            AttrValue::Text(decimal(tabindex as int)),
        ));
        builder
    }

    /// Sets where a followed link opens. A target set before is replaced.
    pub fn target(self, target: LinkTarget) -> (builder: Self)
        ensures
            builder@ == self@.insert(Attr::Target, AttrValue::Text(target.keyword())),
    {
        let builder = AttrsBuilder { target: Some(Target(target.to_string())), ..self };
        assert(builder@ =~= self@.insert(Attr::Target, AttrValue::Text(target.keyword())));
        builder
    }

    /// Sets the type, written `type`. A value set before is replaced.
    pub fn typ(self, typ: &str) -> (builder: Self)
        ensures
            builder@ == self@.insert(Attr::Type, AttrValue::Text(typ@)),
    {
        let builder = AttrsBuilder { typ: Some(Type(typ.to_string())), ..self };
        assert(builder@ =~= self@.insert(Attr::Type, AttrValue::Text(typ@)));
        builder
    }

    /// Sets the width. A value set before is replaced.
    pub fn width(self, width: &str) -> (builder: Self)
        ensures
            builder@ == self@.insert(Attr::Width, AttrValue::Text(width@)),
    {
        let builder = AttrsBuilder { width: Some(Width(width.to_string())), ..self };
        assert(builder@ =~= self@.insert(Attr::Width, AttrValue::Text(width@)));
        builder
    }

    /// The finished set: each field as the builder holds it.
    pub fn build(self) -> (attrs: Attrs)
        ensures
            attrs == self.built(),
            attrs@ == self@,
    {
        Attrs {
            alt: self.alt,
            az: self.az,
            id: self.id,
            class: self.class,
            charset: self.charset,
            content: self.content,
            data: self.data,
            defer: self.defer,
            height: self.height,
            hidden: self.hidden,
            href: self.href,
            http_equiv: self.http_equiv,
            lang: self.lang,
            name: self.name,
            onclick: self.onclick,
            rel: self.rel,
            src: self.src,
            tabindex: self.tabindex,
            target: self.target,
            typ: self.typ,
            width: self.width,
        }
    }
}

} // verus!
