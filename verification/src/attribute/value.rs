//! The typed values that an attribute can hold, and how each is written.

use crate::attribute::kind::Attr;
use crate::text::{join, join_strings};
use vstd::prelude::*;
use vstd::string::StringExecFns;

verus! {

/// What an attribute holds, as a mathematical value.
pub enum AttrValue {
    /// One string: written `name="value"`.
    Text(Seq<char>),
    /// An ordered list of strings: written `name="v1 v2"`.
    List(Seq<Seq<char>>),
    /// A key and a value: written `name-key="value"`.
    Keyed(Seq<char>, Seq<char>),
    /// Presence alone: written `name`.
    Flag,
}

/// `="value"`: the value is put between the quotes as it is, nothing in it
/// is escaped.
pub open spec fn quoted(value: Seq<char>) -> Seq<char> {
    "=\""@ + value + "\""@
}

/// The text of one attribute inside an opening tag.
pub open spec fn attr_text(kind: Attr, value: AttrValue) -> Seq<char> {
    match value {
        AttrValue::Text(v) => kind.name() + quoted(v),
        AttrValue::List(vs) => kind.name() + quoted(join(vs, " "@)),
        AttrValue::Keyed(k, v) => kind.name() + "-"@ + k + quoted(v),
        AttrValue::Flag => kind.name(),
    }
}

/// Writes `name="value"` for a value of one string.
pub fn scalar_text(kind: Attr, value: &str) -> (out: String)
    ensures
        out@ == attr_text(kind, AttrValue::Text(value@)),
{
    let mut out = kind.to_string();
    out.append("=\"");
    out.append(value);
    out.append("\"");
    assert(out@ =~= kind.name() + quoted(value@));
    out
}

/// Where a followed link opens.
#[derive(Debug, Clone, Copy, PartialEq, Eq, Structural)]
pub enum LinkTarget {
    Blank,
    Parent,
    Slf,
    Top,
    UnfencedTop,
}

impl LinkTarget {
    /// The keyword that stands for the target in markup.
    pub open spec fn keyword(self) -> Seq<char> {
        match self {
            LinkTarget::Blank => "_blank"@,
            LinkTarget::Parent => "_parent"@,
            LinkTarget::Slf => "_self"@,
            LinkTarget::Top => "_top"@,
            LinkTarget::UnfencedTop => "_unfencedTop"@,
        }
    }

    /// The keyword as a borrowed literal.
    pub fn as_str(&self) -> (s: &'static str)
        ensures
            s@ == self.keyword(),
    {
        match self {
            LinkTarget::Blank => "_blank",
            LinkTarget::Parent => "_parent",
            LinkTarget::Slf => "_self",
            LinkTarget::Top => "_top",
            LinkTarget::UnfencedTop => "_unfencedTop",
        }
    }

    /// The keyword as an owned string.
    pub fn to_string(&self) -> (s: String)
        ensures
            s@ == self.keyword(),
    {
        self.as_str().to_string()
    }
}

/// The two states of the `hidden` attribute.
#[derive(Debug, Clone, Copy, PartialEq, Eq, Structural)]
pub enum HiddenValue {
    Hidden,
    UntilFound,
}

impl HiddenValue {
    /// The keyword that stands for the state in markup.
    pub open spec fn keyword(self) -> Seq<char> {
        match self {
            HiddenValue::Hidden => "hidden"@,
            HiddenValue::UntilFound => "until-found"@,
        }
    }

    /// The keyword as a borrowed literal.
    pub fn as_str(&self) -> (s: &'static str)
        ensures
            s@ == self.keyword(),
    {
        match self {
            HiddenValue::Hidden => "hidden",
            HiddenValue::UntilFound => "until-found",
        }
    }

    /// The keyword as an owned string.
    pub fn to_string(&self) -> (s: String)
        ensures
            s@ == self.keyword(),
    {
        self.as_str().to_string()
    }
}

/// The `alt` attribute: one string.
#[derive(Debug)]
pub struct Alt(pub String);

impl View for Alt {
    type V = AttrValue;

    open spec fn view(&self) -> AttrValue {
        AttrValue::Text(self.0@)
    }
}

impl Clone for Alt {
    fn clone(&self) -> (copy: Self)
        ensures
            copy@ == self@,
    {
        Alt(self.0.clone())
    }
}

impl Alt {
    /// `alt="value"`.
    pub fn to_string(&self) -> (s: String)
        ensures
            s@ == attr_text(Attr::Alt, self@),
    {
        scalar_text(Attr::Alt, self.0.as_str())
    }
}

/// The `as` attribute: one string.
#[derive(Debug)]
pub struct Az(pub String);

impl View for Az {
    type V = AttrValue;

    open spec fn view(&self) -> AttrValue {
        AttrValue::Text(self.0@)
    }
}

impl Clone for Az {
    fn clone(&self) -> (copy: Self)
        ensures
            copy@ == self@,
    {
        Az(self.0.clone())
    }
}

impl Az {
    /// `as="value"`.
    pub fn to_string(&self) -> (s: String)
        ensures
            s@ == attr_text(Attr::Az, self@),
    {
        scalar_text(Attr::Az, self.0.as_str())
    }
}

/// The `charset` attribute: one string.
#[derive(Debug)]
pub struct Charset(pub String);

impl View for Charset {
    type V = AttrValue;

    open spec fn view(&self) -> AttrValue {
        AttrValue::Text(self.0@)
    }
}

impl Clone for Charset {
    fn clone(&self) -> (copy: Self)
        ensures
            copy@ == self@,
    {
        Charset(self.0.clone())
    }
}

impl Charset {
    /// `charset="value"`.
    pub fn to_string(&self) -> (s: String)
        ensures
            s@ == attr_text(Attr::Charset, self@),
    {
        scalar_text(Attr::Charset, self.0.as_str())
    }
}

/// The `content` attribute: one string.
#[derive(Debug)]
pub struct Content(pub String);

impl View for Content {
    type V = AttrValue;

    open spec fn view(&self) -> AttrValue {
        AttrValue::Text(self.0@)
    }
}

impl Clone for Content {
    fn clone(&self) -> (copy: Self)
        ensures
            copy@ == self@,
    {
        Content(self.0.clone())
    }
}

impl Content {
    /// `content="value"`.
    pub fn to_string(&self) -> (s: String)
        ensures
            s@ == attr_text(Attr::Content, self@),
    {
        scalar_text(Attr::Content, self.0.as_str())
    }
}

/// The `height` attribute: one string.
#[derive(Debug)]
pub struct Height(pub String);

impl View for Height {
    type V = AttrValue;

    open spec fn view(&self) -> AttrValue {
        AttrValue::Text(self.0@)
    }
}

impl Clone for Height {
    fn clone(&self) -> (copy: Self)
        ensures
            copy@ == self@,
    {
        Height(self.0.clone())
    }
}

impl Height {
    /// `height="value"`.
    pub fn to_string(&self) -> (s: String)
        ensures
            s@ == attr_text(Attr::Height, self@),
    {
        scalar_text(Attr::Height, self.0.as_str())
    }
}

/// The `hidden` attribute: one string.
#[derive(Debug)]
pub struct Hidden(pub String);

impl View for Hidden {
    type V = AttrValue;

    open spec fn view(&self) -> AttrValue {
        AttrValue::Text(self.0@)
    }
}

impl Clone for Hidden {
    fn clone(&self) -> (copy: Self)
        ensures
            copy@ == self@,
    {
        Hidden(self.0.clone())
    }
}

impl Hidden {
    /// `hidden="value"`.
    pub fn to_string(&self) -> (s: String)
        ensures
            s@ == attr_text(Attr::Hidden, self@),
    {
        scalar_text(Attr::Hidden, self.0.as_str())
    }
}

/// The `href` attribute: one string.
#[derive(Debug)]
pub struct Href(pub String);

impl View for Href {
    type V = AttrValue;

    open spec fn view(&self) -> AttrValue {
        AttrValue::Text(self.0@)
    }
}

impl Clone for Href {
    fn clone(&self) -> (copy: Self)
        ensures
            copy@ == self@,
    {
        Href(self.0.clone())
    }
}

impl Href {
    /// `href="value"`.
    pub fn to_string(&self) -> (s: String)
        ensures
            s@ == attr_text(Attr::Href, self@),
    {
        scalar_text(Attr::Href, self.0.as_str())
    }
}

/// The `http-equiv` attribute: one string.
#[derive(Debug)]
pub struct HttpEquiv(pub String);

impl View for HttpEquiv {
    type V = AttrValue;

    open spec fn view(&self) -> AttrValue {
        AttrValue::Text(self.0@)
    }
}

impl Clone for HttpEquiv {
    fn clone(&self) -> (copy: Self)
        ensures
            copy@ == self@,
    {
        HttpEquiv(self.0.clone())
    }
}

impl HttpEquiv {
    /// `http-equiv="value"`.
    pub fn to_string(&self) -> (s: String)
        ensures
            s@ == attr_text(Attr::HttpEquiv, self@),
    {
        scalar_text(Attr::HttpEquiv, self.0.as_str())
    }
}

/// The `id` attribute: one string.
#[derive(Debug)]
pub struct Id(pub String);

impl View for Id {
    type V = AttrValue;

    open spec fn view(&self) -> AttrValue {
        AttrValue::Text(self.0@)
    }
}

impl Clone for Id {
    fn clone(&self) -> (copy: Self)
        ensures
            copy@ == self@,
    {
        Id(self.0.clone())
    }
}

impl Id {
    /// `id="value"`.
    pub fn to_string(&self) -> (s: String)
        ensures
            s@ == attr_text(Attr::Id, self@),
    {
        scalar_text(Attr::Id, self.0.as_str())
    }
}

/// The `lang` attribute: one string.
#[derive(Debug)]
pub struct Lang(pub String);

impl View for Lang {
    type V = AttrValue;

    open spec fn view(&self) -> AttrValue {
        AttrValue::Text(self.0@)
    }
}

impl Clone for Lang {
    fn clone(&self) -> (copy: Self)
        ensures
            copy@ == self@,
    {
        Lang(self.0.clone())
    }
}

impl Lang {
    /// `lang="value"`.
    pub fn to_string(&self) -> (s: String)
        ensures
            s@ == attr_text(Attr::Lang, self@),
    {
        scalar_text(Attr::Lang, self.0.as_str())
    }
}

/// The `name` attribute: one string.
#[derive(Debug)]
pub struct Name(pub String);

impl View for Name {
    type V = AttrValue;

    open spec fn view(&self) -> AttrValue {
        AttrValue::Text(self.0@)
    }
}

impl Clone for Name {
    fn clone(&self) -> (copy: Self)
        ensures
            copy@ == self@,
    {
        Name(self.0.clone())
    }
}

impl Name {
    /// `name="value"`.
    pub fn to_string(&self) -> (s: String)
        ensures
            s@ == attr_text(Attr::Name, self@),
    {
        scalar_text(Attr::Name, self.0.as_str())
    }
}

/// The `onclick` attribute: one string.
#[derive(Debug)]
pub struct Onclick(pub String);

impl View for Onclick {
    type V = AttrValue;

    open spec fn view(&self) -> AttrValue {
        AttrValue::Text(self.0@)
    }
}

impl Clone for Onclick {
    fn clone(&self) -> (copy: Self)
        ensures
            copy@ == self@,
    {
        Onclick(self.0.clone())
    }
}

impl Onclick {
    /// `onclick="value"`.
    pub fn to_string(&self) -> (s: String)
        ensures
            s@ == attr_text(Attr::Onclick, self@),
    {
        scalar_text(Attr::Onclick, self.0.as_str())
    }
}

/// The `rel` attribute: one string.
#[derive(Debug)]
pub struct Rel(pub String);

impl View for Rel {
    type V = AttrValue;

    open spec fn view(&self) -> AttrValue {
        AttrValue::Text(self.0@)
    }
}

impl Clone for Rel {
    fn clone(&self) -> (copy: Self)
        ensures
            copy@ == self@,
    {
        Rel(self.0.clone())
    }
}

impl Rel {
    /// `rel="value"`.
    pub fn to_string(&self) -> (s: String)
        ensures
            s@ == attr_text(Attr::Rel, self@),
    {
        scalar_text(Attr::Rel, self.0.as_str())
    }
}

/// The `src` attribute: one string.
#[derive(Debug)]
pub struct Src(pub String);

impl View for Src {
    type V = AttrValue;

    open spec fn view(&self) -> AttrValue {
        AttrValue::Text(self.0@)
    }
}

impl Clone for Src {
    fn clone(&self) -> (copy: Self)
        ensures
            copy@ == self@,
    {
        Src(self.0.clone())
    }
}

impl Src {
    /// `src="value"`.
    pub fn to_string(&self) -> (s: String)
        ensures
            s@ == attr_text(Attr::Src, self@),
    {
        scalar_text(Attr::Src, self.0.as_str())
    }
}

/// The `tabindex` attribute: one string.
#[derive(Debug)]
pub struct Tabindex(pub String);

impl View for Tabindex {
    type V = AttrValue;

    open spec fn view(&self) -> AttrValue {
        AttrValue::Text(self.0@)
    }
}

impl Clone for Tabindex {
    fn clone(&self) -> (copy: Self)
        ensures
            copy@ == self@,
    {
        Tabindex(self.0.clone())
    }
}

impl Tabindex {
    /// `tabindex="value"`.
    pub fn to_string(&self) -> (s: String)
        ensures
            s@ == attr_text(Attr::Tabindex, self@),
    {
        scalar_text(Attr::Tabindex, self.0.as_str())
    }
}

/// The `target` attribute: one string.
#[derive(Debug)]
pub struct Target(pub String);

impl View for Target {
    type V = AttrValue;

    open spec fn view(&self) -> AttrValue {
        AttrValue::Text(self.0@)
    }
}

impl Clone for Target {
    fn clone(&self) -> (copy: Self)
        ensures
            copy@ == self@,
    {
        Target(self.0.clone())
    }
}

impl Target {
    /// `target="value"`.
    pub fn to_string(&self) -> (s: String)
        ensures
            s@ == attr_text(Attr::Target, self@),
    {
        scalar_text(Attr::Target, self.0.as_str())
    }
}

/// The `type` attribute: one string.
#[derive(Debug)]
pub struct Type(pub String);

impl View for Type {
    type V = AttrValue;

    open spec fn view(&self) -> AttrValue {
        AttrValue::Text(self.0@)
    }
}

impl Clone for Type {
    fn clone(&self) -> (copy: Self)
        ensures
            copy@ == self@,
    {
        Type(self.0.clone())
    }
}

impl Type {
    /// `type="value"`.
    pub fn to_string(&self) -> (s: String)
        ensures
            s@ == attr_text(Attr::Type, self@),
    {
        scalar_text(Attr::Type, self.0.as_str())
    }
}

/// The `width` attribute: one string.
#[derive(Debug)]
pub struct Width(pub String);

impl View for Width {
    type V = AttrValue;

    open spec fn view(&self) -> AttrValue {
        AttrValue::Text(self.0@)
    }
}

impl Clone for Width {
    fn clone(&self) -> (copy: Self)
        ensures
            copy@ == self@,
    {
        Width(self.0.clone())
    }
}

impl Width {
    /// `width="value"`.
    pub fn to_string(&self) -> (s: String)
        ensures
            s@ == attr_text(Attr::Width, self@),
    {
        scalar_text(Attr::Width, self.0.as_str())
    }
}

/// A `data-*` attribute: the part of the name after `data-`, and the value.
#[derive(Debug)]
pub struct Data(pub String, pub String);

impl View for Data {
    type V = AttrValue;

    open spec fn view(&self) -> AttrValue {
        AttrValue::Keyed(self.0@, self.1@)
    }
}

impl Clone for Data {
    fn clone(&self) -> (copy: Self)
        ensures
            copy@ == self@,
    {
        Data(self.0.clone(), self.1.clone())
    }
}

impl Data {
    /// `data-key="value"`.
    pub fn to_string(&self) -> (s: String)
        ensures
            s@ == attr_text(Attr::Data, self@),
    {
        let mut out = Attr::Data.to_string();
        out.append("-");
        out.append(self.0.as_str());
        out.append("=\"");
        out.append(self.1.as_str());
        out.append("\"");
        assert(out@ =~= Attr::Data.name() + "-"@ + self.0@ + quoted(self.1@));
        out
    }
}

/// The `defer` attribute: present or not, with no value.
#[derive(Debug, Clone, Copy)]
pub struct Defer;

impl View for Defer {
    type V = AttrValue;

    open spec fn view(&self) -> AttrValue {
        AttrValue::Flag
    }
}

impl Defer {
    /// The bare name `defer`.
    pub fn to_string(&self) -> (s: String)
        ensures
            s@ == attr_text(Attr::Defer, self@),
    {
        Attr::Defer.to_string()
    }
}

/// The `class` attribute: an ordered list of class names.
#[derive(Debug)]
pub struct Class(pub Vec<String>);

impl View for Class {
    type V = AttrValue;

    open spec fn view(&self) -> AttrValue {
        AttrValue::List(self.0.deep_view())
    }
}

impl Clone for Class {
    fn clone(&self) -> (copy: Self)
        ensures
            copy@ == self@,
    {
        Class(self.0.clone())
    }
}

impl Class {
    /// `class="v1 v2"`: the names joined by single spaces.
    pub fn to_string(&self) -> (s: String)
        ensures
            s@ == attr_text(Attr::Class, self@),
    {
        let names = join_strings(&self.0, " ");
        let mut out = Attr::Class.to_string();
        out.append("=\"");
        out.append(names.as_str());
        out.append("\"");
        assert(out@ =~= Attr::Class.name() + quoted(join(self.0.deep_view(), " "@)));
        out
    }
}

} // verus!
