//! The closed catalog of attribute kinds.

use vstd::prelude::*;

verus! {

/// One recognised attribute name.
#[derive(Debug, Clone, Copy, PartialEq, Eq, Structural)]
pub enum Attr {
    Alt,
    Az,
    Charset,
    Content,
    Class,
    Data,
    Defer,
    Height,
    Hidden,
    Href,
    HttpEquiv,
    Id,
    Lang,
    Name,
    Onclick,
    Src,
    Tabindex,
    Target,
    Type,
    Rel,
    Width,
}

impl Attr {
    /// The name under which the attribute is written in markup.
    pub open spec fn name(self) -> Seq<char> {
        match self {
            Attr::Alt => "alt"@,
            Attr::Az => "as"@,
            Attr::Charset => "charset"@,
            Attr::Content => "content"@,
            Attr::Class => "class"@,
            Attr::Data => "data"@,
            Attr::Defer => "defer"@,
            Attr::Height => "height"@,
            Attr::Hidden => "hidden"@,
            Attr::Href => "href"@,
            Attr::HttpEquiv => "http-equiv"@,
            Attr::Id => "id"@,
            Attr::Lang => "lang"@,
            Attr::Name => "name"@,
            Attr::Onclick => "onclick"@,
            Attr::Src => "src"@,
            Attr::Tabindex => "tabindex"@,
            Attr::Target => "target"@,
            Attr::Type => "type"@,
            Attr::Rel => "rel"@,
            Attr::Width => "width"@,
        }
    }

    /// Whether every tag accepts the attribute.
    pub open spec fn is_global(self) -> bool {
        self == Attr::Id || self == Attr::Class || self == Attr::Data || self == Attr::Hidden
            || self == Attr::Lang || self == Attr::Tabindex
    }

    /// The attribute's place in the canonical order.
    pub open spec fn rank(self) -> int {
        match self {
            Attr::Alt => 0,
            Attr::Az => 1,
            Attr::Charset => 2,
            Attr::Class => 3,
            Attr::Content => 4,
            Attr::Data => 5,
            Attr::Defer => 6,
            Attr::Height => 7,
            Attr::Hidden => 8,
            Attr::Href => 9,
            Attr::HttpEquiv => 10,
            Attr::Id => 11,
            Attr::Lang => 12,
            Attr::Name => 13,
            Attr::Onclick => 14,
            Attr::Src => 15,
            Attr::Tabindex => 16,
            Attr::Target => 17,
            Attr::Type => 18,
            Attr::Rel => 19,
            Attr::Width => 20,
        }
    }

    /// The attribute's name as a borrowed literal.
    pub fn as_str(&self) -> (s: &'static str)
        ensures
            s@ == self.name(),
    {
        match self {
            Attr::Alt => "alt",
            Attr::Az => "as",
            Attr::Charset => "charset",
            Attr::Content => "content",
            Attr::Class => "class",
            Attr::Data => "data",
            Attr::Defer => "defer",
            Attr::Height => "height",
            Attr::Hidden => "hidden",
            Attr::Href => "href",
            Attr::HttpEquiv => "http-equiv",
            Attr::Id => "id",
            Attr::Lang => "lang",
            Attr::Name => "name",
            Attr::Onclick => "onclick",
            Attr::Src => "src",
            Attr::Tabindex => "tabindex",
            Attr::Target => "target",
            Attr::Type => "type",
            Attr::Rel => "rel",
            Attr::Width => "width",
        }
    }

    /// The attribute's name as an owned string.
    pub fn to_string(&self) -> (s: String)
        ensures
            s@ == self.name(),
    {
        self.as_str().to_string()
    }

    /// Every attribute kind of the catalog, each once.
    pub open spec fn all_spec() -> Seq<Attr> {
        seq![
            Attr::Alt,
            Attr::Az,
            Attr::Id,
            Attr::Class,
            Attr::Charset,
            Attr::Content,
            Attr::Data,
            Attr::Defer,
            Attr::Height,
            Attr::Hidden,
            Attr::Href,
            Attr::HttpEquiv,
            Attr::Lang,
            Attr::Name,
            Attr::Onclick,
            Attr::Rel,
            Attr::Src,
            Attr::Tabindex,
            Attr::Target,
            Attr::Type,
            Attr::Width,
        ]
    }

    /// The attributes that every tag accepts.
    pub open spec fn global_spec() -> Seq<Attr> {
        seq![Attr::Id, Attr::Class, Attr::Data, Attr::Hidden, Attr::Lang, Attr::Tabindex]
    }

    /// The order in which the attributes of one element are written out,
    /// whatever the order in which they were set.
    pub open spec fn canonical_spec() -> Seq<Attr> {
        seq![
            Attr::Alt,
            Attr::Az,
            Attr::Charset,
            Attr::Class,
            Attr::Content,
            Attr::Data,
            Attr::Defer,
            Attr::Height,
            Attr::Hidden,
            Attr::Href,
            Attr::HttpEquiv,
            Attr::Id,
            Attr::Lang,
            Attr::Name,
            Attr::Onclick,
            Attr::Src,
            Attr::Tabindex,
            Attr::Target,
            Attr::Type,
            Attr::Rel,
            Attr::Width,
        ]
    }

    /// No attribute has an empty name.
    pub proof fn lemma_name_is_not_empty(self)
        ensures
            self.name().len() > 0,
    {
        reveal_strlit("alt");
        reveal_strlit("as");
        reveal_strlit("charset");
        reveal_strlit("content");
        reveal_strlit("class");
        reveal_strlit("data");
        reveal_strlit("defer");
        reveal_strlit("height");
        reveal_strlit("hidden");
        reveal_strlit("href");
        reveal_strlit("http-equiv");
        reveal_strlit("id");
        reveal_strlit("lang");
        reveal_strlit("name");
        reveal_strlit("onclick");
        reveal_strlit("src");
        reveal_strlit("tabindex");
        reveal_strlit("target");
        reveal_strlit("type");
        reveal_strlit("rel");
        reveal_strlit("width");
    }

    /// The canonical order holds every kind, each once, at its rank.
    pub proof fn lemma_canonical_order()
        ensures
            Self::canonical_spec().len() == 21,
            Self::canonical_spec().no_duplicates(),
            forall|kind: Attr| 0 <= #[trigger] kind.rank() < 21,
            forall|kind: Attr| #[trigger] Self::canonical_spec()[kind.rank()] == kind,
            forall|i: int| 0 <= i < 21 ==> (#[trigger] Self::canonical_spec()[i]).rank() == i,
    {
    }

    /// The catalog holds every kind.
    pub proof fn lemma_catalog_is_complete(kind: Attr)
        ensures
            Self::all_spec().contains(kind),
    {
        assert(Self::all_spec()[0] == Attr::Alt);
        assert(Self::all_spec()[1] == Attr::Az);
        assert(Self::all_spec()[2] == Attr::Id);
        assert(Self::all_spec()[3] == Attr::Class);
        assert(Self::all_spec()[4] == Attr::Charset);
        assert(Self::all_spec()[5] == Attr::Content);
        assert(Self::all_spec()[6] == Attr::Data);
        assert(Self::all_spec()[7] == Attr::Defer);
        assert(Self::all_spec()[8] == Attr::Height);
        assert(Self::all_spec()[9] == Attr::Hidden);
        assert(Self::all_spec()[10] == Attr::Href);
        assert(Self::all_spec()[11] == Attr::HttpEquiv);
        assert(Self::all_spec()[12] == Attr::Lang);
        assert(Self::all_spec()[13] == Attr::Name);
        assert(Self::all_spec()[14] == Attr::Onclick);
        assert(Self::all_spec()[15] == Attr::Rel);
        assert(Self::all_spec()[16] == Attr::Src);
        assert(Self::all_spec()[17] == Attr::Tabindex);
        assert(Self::all_spec()[18] == Attr::Target);
        assert(Self::all_spec()[19] == Attr::Type);
        assert(Self::all_spec()[20] == Attr::Width);
    }

    /// The global list holds the global attributes and no other.
    pub proof fn lemma_global_list(kind: Attr)
        ensures
            Self::global_spec().contains(kind) <==> kind.is_global(),
    {
        assert(Self::global_spec()[0] == Attr::Id);
        assert(Self::global_spec()[1] == Attr::Class);
        assert(Self::global_spec()[2] == Attr::Data);
        assert(Self::global_spec()[3] == Attr::Hidden);
        assert(Self::global_spec()[4] == Attr::Lang);
        assert(Self::global_spec()[5] == Attr::Tabindex);
    }

    /// The full catalog.
    pub fn all() -> (list: &'static [Attr])
        ensures
            list@ == Self::all_spec(),
    {
        &[
            Attr::Alt,
            Attr::Az,
            Attr::Id,
            Attr::Class,
            Attr::Charset,
            Attr::Content,
            Attr::Data,
            Attr::Defer,
            Attr::Height,
            Attr::Hidden,
            Attr::Href,
            Attr::HttpEquiv,
            Attr::Lang,
            Attr::Name,
            Attr::Onclick,
            Attr::Rel,
            Attr::Src,
            Attr::Tabindex,
            Attr::Target,
            Attr::Type,
            Attr::Width,
        ]
    }

    /// The global attributes.
    pub fn global() -> (list: &'static [Attr])
        ensures
            list@ == Self::global_spec(),
    {
        &[Attr::Id, Attr::Class, Attr::Data, Attr::Hidden, Attr::Lang, Attr::Tabindex]
    }

    /// The attribute kinds in rendering order.
    pub fn canonical() -> (list: &'static [Attr])
        ensures
            list@ == Self::canonical_spec(),
    {
        &[
            Attr::Alt,
            Attr::Az,
            Attr::Charset,
            Attr::Class,
            Attr::Content,
            Attr::Data,
            Attr::Defer,
            Attr::Height,
            Attr::Hidden,
            Attr::Href,
            Attr::HttpEquiv,
            Attr::Id,
            Attr::Lang,
            Attr::Name,
            Attr::Onclick,
            Attr::Src,
            Attr::Tabindex,
            Attr::Target,
            Attr::Type,
            Attr::Rel,
            Attr::Width,
        ]
    }
}

} // verus!
