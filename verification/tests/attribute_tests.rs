use html_builder::attribute::{
    validate_attrs, Alt, Attr, Attrs, AttrsBuilder, Class, Data, Defer, Hidden, HiddenValue, Id,
    LinkTarget, Tabindex, Type,
};
use html_builder::tag::Tag;
use html_builder::text::decimal_string;

fn every_kind() -> Vec<Attr> {
    vec![
        Attr::Alt,
        Attr::Az,
        Attr::Charset,
        Attr::Content,
        Attr::Class,
        Attr::Data,
        Attr::Defer,
        Attr::Height,
        Attr::Hidden,
        Attr::Href,
        Attr::HttpEquiv,
        Attr::Id,
        Attr::Lang,
        Attr::Name,
        Attr::Onclick,
        Attr::Src,
        Attr::Tabindex,
        Attr::Target,
        Attr::Type,
        Attr::Rel,
        Attr::Width,
    ]
}

fn full_set() -> Attrs {
    Attrs::new()
        .width("9")
        .rel("r")
        .typ("t")
        .target(LinkTarget::Top)
        .tabindex(3)
        .src("s")
        .onclick("go()")
        .name("n")
        .lang("en")
        .id("i")
        .http_equiv("refresh")
        .href("h")
        .hidden(HiddenValue::Hidden)
        .height("8")
        .defer()
        .data("key", "v")
        .content("c")
        .class(vec!["a", "b"])
        .charset("utf-8")
        .az("font")
        .alt("x")
        .build()
}

#[test]
fn attr_names_are_the_markup_names() {
    let names: Vec<String> = every_kind().iter().map(|kind| kind.to_string()).collect();
    assert_eq!(
        names,
        vec![
            "alt", "as", "charset", "content", "class", "data", "defer", "height", "hidden",
            "href", "http-equiv", "id", "lang", "name", "onclick", "src", "tabindex", "target",
            "type", "rel", "width",
        ]
    );
    for kind in every_kind() {
        assert_eq!(kind.as_str(), kind.to_string());
    }
}

#[test]
fn catalog_holds_every_kind_once() {
    let all = Attr::all();
    assert_eq!(all.len(), 21);
    for kind in every_kind() {
        assert_eq!(all.iter().filter(|held| **held == kind).count(), 1);
    }
    let canonical = Attr::canonical();
    assert_eq!(canonical.len(), 21);
    for kind in every_kind() {
        assert_eq!(canonical.iter().filter(|held| **held == kind).count(), 1);
    }
}

#[test]
fn global_attributes_are_the_six() {
    assert_eq!(
        Attr::global().to_vec(),
        vec![Attr::Id, Attr::Class, Attr::Data, Attr::Hidden, Attr::Lang, Attr::Tabindex]
    );
}

#[test]
fn link_target_keywords() {
    assert_eq!(LinkTarget::Blank.to_string(), "_blank");
    assert_eq!(LinkTarget::Parent.to_string(), "_parent");
    assert_eq!(LinkTarget::Slf.to_string(), "_self");
    assert_eq!(LinkTarget::Top.to_string(), "_top");
    assert_eq!(LinkTarget::UnfencedTop.to_string(), "_unfencedTop");
    assert_eq!(LinkTarget::Blank.as_str(), "_blank");
}

#[test]
fn hidden_value_keywords() {
    assert_eq!(HiddenValue::Hidden.to_string(), "hidden");
    assert_eq!(HiddenValue::UntilFound.to_string(), "until-found");
    assert_eq!(HiddenValue::UntilFound.as_str(), "until-found");
}

#[test]
fn scalar_attribute_is_name_and_quoted_value() {
    assert_eq!(Id("main".to_string()).to_string(), r#"id="main""#);
    assert_eq!(Alt("a picture".to_string()).to_string(), r#"alt="a picture""#);
    assert_eq!(Type("submit".to_string()).to_string(), r#"type="submit""#);
    assert_eq!(Hidden("until-found".to_string()).to_string(), r#"hidden="until-found""#);
    assert_eq!(Id(String::new()).to_string(), r#"id="""#);
}

#[test]
fn scalar_value_is_not_escaped() {
    assert_eq!(Id(r#"a"b<c>"#.to_string()).to_string(), r#"id="a"b<c>""#);
}

#[test]
fn class_joins_its_names_with_single_spaces() {
    let class = Class(vec!["one".to_string(), "two".to_string(), "three".to_string()]);
    assert_eq!(class.to_string(), r#"class="one two three""#);
    assert_eq!(Class(vec!["solo".to_string()]).to_string(), r#"class="solo""#);
    assert_eq!(Class(vec![]).to_string(), r#"class="""#);
}

#[test]
fn data_attribute_carries_its_key_in_the_name() {
    assert_eq!(Data("user-id".to_string(), "42".to_string()).to_string(), r#"data-user-id="42""#);
}

#[test]
fn defer_is_a_bare_name() {
    assert_eq!(Defer.to_string(), "defer");
}

#[test]
fn tabindex_is_held_as_a_decimal_numeral() {
    assert_eq!(Tabindex(decimal_string(0)).to_string(), r#"tabindex="0""#);
    let shown = |n: i16| Attrs::new().tabindex(n).build().get_attrs(&Tag::Div);
    assert_eq!(shown(0), vec![r#"tabindex="0""#]);
    assert_eq!(shown(7), vec![r#"tabindex="7""#]);
    assert_eq!(shown(-1), vec![r#"tabindex="-1""#]);
    assert_eq!(shown(10), vec![r#"tabindex="10""#]);
    assert_eq!(shown(32767), vec![r#"tabindex="32767""#]);
    assert_eq!(shown(-32768), vec![r#"tabindex="-32768""#]);
}

#[test]
fn decimal_string_agrees_with_the_standard_numeral_of_every_i16() {
    for n in i16::MIN..=i16::MAX {
        assert_eq!(decimal_string(n), n.to_string());
    }
}

#[test]
fn builder_starts_empty() {
    let attrs = AttrsBuilder::new().build();
    assert!(attrs.alt.is_none() && attrs.id.is_none() && attrs.class.is_none());
    assert!(attrs.get_attrs(&Tag::Div).is_empty());
    assert!(Attrs::default().get_attrs(&Tag::Div).is_empty());
    assert!(AttrsBuilder::default().build().get_attrs(&Tag::Div).is_empty());
    for kind in every_kind() {
        assert!(!attrs.holds(kind));
        assert_eq!(attrs.entry(kind), None);
    }
}

#[test]
fn builder_sets_the_named_field_alone() {
    let attrs = Attrs::new().href("https://example.org").build();
    assert_eq!(attrs.href.as_ref().unwrap().0, "https://example.org");
    for kind in every_kind() {
        assert_eq!(attrs.holds(kind), kind == Attr::Href);
    }
    assert_eq!(attrs.entry(Attr::Href), Some(r#"href="https://example.org""#.to_string()));
}

#[test]
fn builder_last_write_wins() {
    let attrs = Attrs::new().id("first").id("second").build();
    assert_eq!(attrs.get_attrs(&Tag::Div), vec![r#"id="second""#]);
    let classes = Attrs::new().class(vec!["a", "b"]).class(vec!["c"]).build();
    assert_eq!(classes.get_attrs(&Tag::Div), vec![r#"class="c""#]);
    let data = Attrs::new().data("a", "1").data("b", "2").build();
    assert_eq!(data.get_attrs(&Tag::Div), vec![r#"data-b="2""#]);
}

#[test]
fn attributes_come_out_in_canonical_order() {
    assert_eq!(
        full_set().get_attrs(&Tag::Div),
        vec![
            r#"alt="x""#,
            r#"as="font""#,
            r#"charset="utf-8""#,
            r#"class="a b""#,
            r#"content="c""#,
            r#"data-key="v""#,
            "defer",
            r#"height="8""#,
            r#"hidden="hidden""#,
            r#"href="h""#,
            r#"http-equiv="refresh""#,
            r#"id="i""#,
            r#"lang="en""#,
            r#"name="n""#,
            r#"onclick="go()""#,
            r#"src="s""#,
            r#"tabindex="3""#,
            r#"target="_top""#,
            r#"type="t""#,
            r#"rel="r""#,
            r#"width="9""#,
        ]
    );
    assert!(full_set().warnings(&Tag::Div).is_empty());
}

#[test]
fn setting_order_does_not_change_what_is_written() {
    let one = Attrs::new().class(vec!["c"]).id("i").build();
    let other = Attrs::new().id("i").class(vec!["c"]).build();
    assert_eq!(one.get_attrs(&Tag::Div), other.get_attrs(&Tag::Div));
    assert_eq!(one.get_attrs(&Tag::Div), vec![r#"class="c""#, r#"id="i""#]);
    assert_eq!(one.get_attrs(&Tag::B), other.get_attrs(&Tag::B));
    assert_eq!(one.warnings(&Tag::B), other.warnings(&Tag::B));
}

#[test]
fn global_only_tags_keep_the_global_attributes_alone() {
    for tag in [Tag::B, Tag::Body, Tag::Code] {
        assert_eq!(
            full_set().get_attrs(&tag),
            vec![
                r#"class="a b""#,
                r#"data-key="v""#,
                r#"hidden="hidden""#,
                r#"id="i""#,
                r#"lang="en""#,
                r#"tabindex="3""#,
            ]
        );
        assert_eq!(full_set().warnings(&tag).len(), 15);
    }
}

#[test]
fn anchor_and_button_add_their_own_attributes() {
    assert_eq!(
        full_set().get_attrs(&Tag::A),
        vec![
            r#"class="a b""#,
            r#"data-key="v""#,
            r#"hidden="hidden""#,
            r#"href="h""#,
            r#"id="i""#,
            r#"lang="en""#,
            r#"onclick="go()""#,
            r#"tabindex="3""#,
            r#"target="_top""#,
            r#"rel="r""#,
        ]
    );
    assert_eq!(
        full_set().get_attrs(&Tag::Button),
        vec![
            r#"class="a b""#,
            r#"data-key="v""#,
            r#"hidden="hidden""#,
            r#"id="i""#,
            r#"lang="en""#,
            r#"tabindex="3""#,
            r#"type="t""#,
        ]
    );
}

#[test]
fn illegal_attribute_is_dropped_and_reported_once() {
    let attrs = Attrs::new().href("x").id("kept").build();
    assert_eq!(attrs.get_attrs(&Tag::B), vec![r#"id="kept""#]);
    assert_eq!(
        attrs.warnings(&Tag::B),
        vec!["HTML tag 'b' does not support the 'href' attribute"]
    );
    assert_eq!(attrs.get_attrs(&Tag::A), vec![r#"href="x""#, r#"id="kept""#]);
    assert!(attrs.warnings(&Tag::A).is_empty());
}

#[test]
fn every_illegal_pair_is_dropped_and_reported_exactly_once() {
    let tags = [Tag::A, Tag::B, Tag::Body, Tag::Button, Tag::Code, Tag::Div, Tag::Img];
    for tag in tags {
        let accepted = Tag::attributes(&tag);
        let rendered = full_set().get_attrs(&tag);
        let warnings = full_set().warnings(&tag);
        for kind in every_kind() {
            let text = full_set().entry(kind).unwrap();
            let warning = format!(
                "HTML tag '{}' does not support the '{}' attribute",
                tag.to_string(),
                kind.to_string()
            );
            let written = rendered.iter().filter(|held| **held == text).count();
            let reported = warnings.iter().filter(|held| **held == warning).count();
            if accepted.contains(&kind) {
                assert_eq!((written, reported), (1, 0));
            } else {
                assert_eq!((written, reported), (0, 1));
            }
        }
        assert_eq!(rendered.len() + warnings.len(), 21);
    }
}

#[test]
fn warnings_come_in_canonical_order() {
    let attrs = Attrs::new().width("1").src("s").alt("a").build();
    assert_eq!(
        attrs.warnings(&Tag::Code),
        vec![
            "HTML tag 'code' does not support the 'alt' attribute",
            "HTML tag 'code' does not support the 'src' attribute",
            "HTML tag 'code' does not support the 'width' attribute",
        ]
    );
}

#[test]
fn validate_attrs_accepts_what_the_list_holds() {
    let list = [Attr::Id, Attr::Class];
    assert_eq!(validate_attrs(&Tag::Div, &Attr::Id, &list), Ok(()));
    assert_eq!(validate_attrs(&Tag::Div, &Attr::Class, &list), Ok(()));
    assert_eq!(
        validate_attrs(&Tag::Div, &Attr::Href, &list),
        Err("HTML tag 'div' does not support the 'href' attribute".to_string())
    );
    assert_eq!(
        validate_attrs(&Tag::Button, &Attr::HttpEquiv, &[]),
        Err("HTML tag 'button' does not support the 'http-equiv' attribute".to_string())
    );
}

#[test]
fn cloned_set_is_written_the_same() {
    let copy = full_set().clone();
    assert_eq!(copy.get_attrs(&Tag::Div), full_set().get_attrs(&Tag::Div));
    assert_eq!(copy.warnings(&Tag::B), full_set().warnings(&Tag::B));
}
