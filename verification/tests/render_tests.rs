use html_builder::attribute::{Attrs, LinkTarget};
use html_builder::document::{Doctype, Document};
use html_builder::element::{Element, ElementBuilder};
use html_builder::tag::Tag;
use html_builder::text::{append_all, extend_strings, join_strings};

fn every_tag() -> Vec<(Tag, &'static str)> {
    vec![
        (Tag::A, "a"),
        (Tag::B, "b"),
        (Tag::Body, "body"),
        (Tag::Br, "br"),
        (Tag::Button, "button"),
        (Tag::Code, "code"),
        (Tag::Comment, "!--"),
        (Tag::Div, "div"),
        (Tag::Doctype, "!DOCTYPE"),
        (Tag::Em, "em"),
        (Tag::Footer, "footer"),
        (Tag::H1, "h1"),
        (Tag::H2, "h2"),
        (Tag::H3, "h3"),
        (Tag::H4, "h4"),
        (Tag::H5, "h5"),
        (Tag::H6, "h6"),
        (Tag::Head, "head"),
        (Tag::Header, "header"),
        (Tag::Html, "html"),
        (Tag::I, "i"),
        (Tag::Input, "input"),
        (Tag::Img, "img"),
        (Tag::Kbd, "kbd"),
        (Tag::Label, "label"),
        (Tag::Li, "li"),
        (Tag::Link, "link"),
        (Tag::Meta, "meta"),
        (Tag::Nav, "nav"),
        (Tag::Ol, "ol"),
        (Tag::P, "p"),
        (Tag::Pre, "pre"),
        (Tag::Q, "q"),
        (Tag::Script, "script"),
        (Tag::Span, "span"),
        (Tag::Strong, "strong"),
        (Tag::Sub, "sub"),
        (Tag::Sup, "sup"),
        (Tag::Table, "table"),
        (Tag::Thead, "thead"),
        (Tag::Tbody, "tbody"),
        (Tag::Th, "th"),
        (Tag::Tr, "tr"),
        (Tag::Td, "td"),
        (Tag::Title, "title"),
        (Tag::Ul, "ul"),
    ]
}

fn void_tags() -> Vec<Tag> {
    vec![Tag::Doctype, Tag::Meta, Tag::Comment, Tag::Br, Tag::Img]
}

#[test]
fn every_tag_has_its_spelling() {
    assert_eq!(every_tag().len(), 46);
    for (tag, spelling) in every_tag() {
        assert_eq!(tag.to_string(), spelling);
        assert_eq!(tag.as_str(), spelling);
    }
}

#[test]
fn void_tags_are_the_five() {
    for (tag, _) in every_tag() {
        assert_eq!(tag.is_void(), void_tags().contains(&tag));
    }
}

#[test]
fn open_tag_has_three_shapes() {
    assert_eq!(Element::open_tag(&Tag::Div, ""), "<div>");
    assert_eq!(Element::open_tag(&Tag::Div, r#"id="x""#), r#"<div id="x">"#);
    assert_eq!(Element::open_tag(&Tag::Comment, "note"), "<!-- note -->");
    assert_eq!(Element::open_tag(&Tag::Comment, ""), "<!--  -->");
    assert_eq!(Element::open_tag(&Tag::Doctype, "html"), "<!DOCTYPE html>");
}

#[test]
fn close_tag_is_empty_for_void_tags() {
    for (tag, spelling) in every_tag() {
        if tag.is_void() {
            assert_eq!(Element::close_tag(&tag), "");
        } else {
            assert_eq!(Element::close_tag(&tag), format!("</{}>", spelling));
        }
    }
}

#[test]
fn empty_element_is_opening_and_closing_tag() {
    for (tag, spelling) in every_tag() {
        if !tag.is_void() {
            let element = ElementBuilder::new(tag).build();
            assert_eq!(element.to_string(), format!("<{}></{}>", spelling, spelling));
        }
    }
}

#[test]
fn void_element_has_no_closing_tag() {
    for tag in void_tags() {
        let bare = ElementBuilder::new(tag).build().to_string();
        let full = ElementBuilder::new(tag)
            .attrs(Attrs::new().id("x").build())
            .content("content")
            .children(vec![ElementBuilder::new(Tag::Span).content("child").build()])
            .build()
            .to_string();
        let closing = format!("</{}>", tag.to_string());
        assert!(!bare.contains(&closing));
        assert!(!full.contains(&closing));
    }
}

#[test]
fn void_element_drops_content_and_children() {
    let br = ElementBuilder::new(Tag::Br)
        .content("lost")
        .children(vec![ElementBuilder::new(Tag::Span).content("lost too").build()])
        .build();
    assert_eq!(br.to_string(), "<br>");
    let img = ElementBuilder::new(Tag::Img)
        .attrs(Attrs::new().src("a.png").alt("a").build())
        .content("lost")
        .build();
    assert_eq!(img.to_string(), r#"<img alt="a" src="a.png">"#);
    let comment = ElementBuilder::new(Tag::Comment).text("kept").content("lost").build();
    assert_eq!(comment.to_string(), "<!-- kept -->");
}

#[test]
fn closing_tag_of_a_void_element_appears_only_if_the_caller_wrote_it() {
    let br = ElementBuilder::new(Tag::Br).text("</br").build();
    assert_eq!(br.to_string(), "<br </br>");
}

#[test]
fn comment_round_trip_shape() {
    let comment = ElementBuilder::new(Tag::Comment).text("x").build();
    assert_eq!(comment.to_string(), "<!-- x -->");
    assert_eq!(ElementBuilder::new(Tag::Comment).build().to_string(), "<!--  -->");
}

#[test]
fn attributes_win_over_text() {
    let element = ElementBuilder::new(Tag::Div)
        .attrs(Attrs::new().id("x").build())
        .text("text")
        .build();
    assert_eq!(element.to_string(), r#"<div id="x"></div>"#);
}

#[test]
fn text_stands_in_where_no_attribute_is_written() {
    let no_attrs = ElementBuilder::new(Tag::Div).text("raw").build();
    assert_eq!(no_attrs.to_string(), "<div raw></div>");
    let empty_attrs = ElementBuilder::new(Tag::Div)
        .attrs(Attrs::new().build())
        .text("raw")
        .build();
    assert_eq!(empty_attrs.to_string(), "<div raw></div>");
    let all_dropped = ElementBuilder::new(Tag::B)
        .attrs(Attrs::new().href("x").build())
        .text("raw")
        .build();
    assert_eq!(all_dropped.to_string(), "<b raw></b>");
    let doctype = ElementBuilder::new(Tag::Doctype).text("html").build();
    assert_eq!(doctype.to_string(), "<!DOCTYPE html>");
}

#[test]
fn content_comes_before_children() {
    let element = ElementBuilder::new(Tag::P)
        .content("text ")
        .children(vec![
            ElementBuilder::new(Tag::Em).content("one").build(),
            ElementBuilder::new(Tag::Strong).content("two").build(),
        ])
        .build();
    assert_eq!(element.to_string(), "<p>text <em>one</em><strong>two</strong></p>");
    assert_eq!(element.make_tag(), element.to_string());
}

#[test]
fn children_are_written_in_order_and_depth_first() {
    let list = ElementBuilder::new(Tag::Ul)
        .children(vec![
            ElementBuilder::new(Tag::Li)
                .children(vec![ElementBuilder::new(Tag::A)
                    .attrs(Attrs::new().href("/1").target(LinkTarget::Blank).build())
                    .content("first")
                    .build()])
                .build(),
            ElementBuilder::new(Tag::Li).content("second").build(),
            ElementBuilder::new(Tag::Br).build(),
        ])
        .build();
    assert_eq!(
        list.to_string(),
        r#"<ul><li><a href="/1" target="_blank">first</a></li><li>second</li><br></ul>"#
    );
    let empty = ElementBuilder::new(Tag::Ul).children(vec![]).build();
    assert_eq!(empty.to_string(), "<ul></ul>");
}

#[test]
fn nothing_is_escaped() {
    let element = ElementBuilder::new(Tag::P)
        .attrs(Attrs::new().id(r#"a"b"#).build())
        .content("1 < 2 & 3 > 2")
        .build();
    assert_eq!(element.to_string(), r#"<p id="a"b">1 < 2 & 3 > 2</p>"#);
}

#[test]
fn rendering_twice_gives_the_same_string() {
    let element = ElementBuilder::new(Tag::Div)
        .attrs(Attrs::new().id("outer").class(vec!["a", "b"]).href("dropped").build())
        .content("text")
        .children(vec![ElementBuilder::new(Tag::Span).content("inner").build()])
        .build();
    assert_eq!(element.to_string(), element.to_string());
    assert_eq!(element.warnings(), element.warnings());
    assert_eq!(element.clone().to_string(), element.to_string());
    assert_eq!(
        element.to_string(),
        r#"<div class="a b" href="dropped" id="outer">text<span>inner</span></div>"#
    );
}

#[test]
fn element_with_identifier_and_class() {
    let element = ElementBuilder::new(Tag::Div)
        .attrs(Attrs::new().id("test-id").class(vec!["test-class"]).build())
        .build();
    assert_eq!(element.to_string(), r#"<div class="test-class" id="test-id"></div>"#);
}

#[test]
fn element_warnings_list_children_first() {
    let element = ElementBuilder::new(Tag::B)
        .attrs(Attrs::new().src("own").build())
        .children(vec![
            ElementBuilder::new(Tag::Code).attrs(Attrs::new().alt("x").width("1").build()).build(),
            ElementBuilder::new(Tag::Div).attrs(Attrs::new().alt("fine").build()).build(),
            ElementBuilder::new(Tag::Body).attrs(Attrs::new().href("y").build()).build(),
        ])
        .build();
    assert_eq!(
        element.warnings(),
        vec![
            "HTML tag 'code' does not support the 'alt' attribute",
            "HTML tag 'code' does not support the 'width' attribute",
            "HTML tag 'body' does not support the 'href' attribute",
            "HTML tag 'b' does not support the 'src' attribute",
        ]
    );
    assert_eq!(
        element.to_string(),
        r#"<b><code></code><div alt="fine"></div><body></body></b>"#
    );
}

#[test]
fn children_of_a_void_element_give_no_warnings() {
    let element = ElementBuilder::new(Tag::Br)
        .children(vec![ElementBuilder::new(Tag::B)
            .attrs(Attrs::new().href("y").build())
            .build()])
        .build();
    assert!(element.warnings().is_empty());
    assert!(ElementBuilder::new(Tag::Div).build().warnings().is_empty());
}

#[test]
fn builder_fields_are_filled_one_at_a_time() {
    let builder = ElementBuilder::new(Tag::P);
    assert_eq!(builder.tag, Tag::P);
    assert!(builder.attrs.is_none() && builder.text.is_none());
    assert!(builder.content.is_none() && builder.children.is_none());
    let builder = builder.content("first").content("second").text("t");
    assert_eq!(builder.content.as_deref(), Some("second"));
    assert_eq!(builder.text.as_deref(), Some("t"));
    assert!(builder.attrs.is_none() && builder.children.is_none());
    let copy = builder.clone();
    let element = builder.children(vec![]).build();
    assert_eq!(element.tag, Tag::P);
    assert_eq!(element.content.as_deref(), Some("second"));
    assert_eq!(element.children.as_ref().map(|children| children.len()), Some(0));
    assert_eq!(copy.build().to_string(), "<p t>second</p>");
}

#[test]
fn named_entry_points_fix_the_tag() {
    assert_eq!(Element::new(Tag::Nav).build().tag, Tag::Nav);
    let built = vec![
        Element::a(),
        Element::b(),
        Element::body(),
        Element::br(),
        Element::button(),
        Element::code(),
        Element::comment(),
        Element::div(),
        Element::doctype(),
        Element::em(),
        Element::footer(),
        Element::h1(),
        Element::h2(),
        Element::h3(),
        Element::h4(),
        Element::h5(),
        Element::h6(),
        Element::head(),
        Element::header(),
        Element::html(),
        Element::i(),
        Element::input(),
        Element::img(),
        Element::kbd(),
        Element::label(),
        Element::li(),
        Element::link(),
        Element::meta(),
        Element::nav(),
        Element::ol(),
        Element::p(),
        Element::pre(),
        Element::q(),
        Element::script(),
        Element::span(),
        Element::strong(),
        Element::sub(),
        Element::sup(),
        Element::table(),
        Element::thead(),
        Element::tbody(),
        Element::th(),
        Element::tr(),
        Element::td(),
        Element::title(),
        Element::ul(),
    ];
    let expected: Vec<Tag> = every_tag().into_iter().map(|(tag, _)| tag).collect();
    let tags: Vec<Tag> = built.iter().map(|builder| builder.tag).collect();
    assert_eq!(tags, expected);
    for builder in built {
        assert!(builder.attrs.is_none() && builder.text.is_none());
        assert!(builder.content.is_none() && builder.children.is_none());
    }
}

#[test]
fn document_starts_with_the_declaration() {
    let document = Document {
        doctype: Doctype::Html,
        elements: vec![
            Element::comment().text("page").build(),
            Element::html()
                .attrs(Attrs::new().lang("en").build())
                .children(vec![
                    Element::head()
                        .children(vec![
                            Element::meta().attrs(Attrs::new().charset("utf-8").build()).build(),
                            Element::title().content("T").build(),
                        ])
                        .build(),
                    Element::body().attrs(Attrs::new().src("x").build()).build(),
                ])
                .build(),
        ],
    };
    assert_eq!(
        document.to_string(),
        concat_all(&[
            "<!DOCTYPE html>",
            "<!-- page -->",
            r#"<html lang="en">"#,
            r#"<head><meta charset="utf-8"><title>T</title></head>"#,
            "<body></body>",
            "</html>",
        ])
    );
    assert_eq!(
        document.warnings(),
        vec!["HTML tag 'body' does not support the 'src' attribute"]
    );
    assert_eq!(document.clone().to_string(), document.to_string());
}

fn concat_all(parts: &[&str]) -> String {
    let mut out = String::new();
    for part in parts {
        out.push_str(part);
    }
    out
}

#[test]
fn empty_document_is_the_declaration_alone() {
    let document = Document { doctype: Doctype::default(), elements: vec![] };
    assert_eq!(document.to_string(), "<!DOCTYPE html>");
    assert!(document.warnings().is_empty());
    assert_eq!(Doctype::Html.to_string(), "html");
    assert_eq!(Doctype::Html.as_str(), "html");
    assert_eq!(Doctype::default(), Doctype::Html);
}

#[test]
fn join_strings_puts_the_separator_between_neighbours() {
    let parts = vec!["a".to_string(), "b".to_string(), "c".to_string()];
    assert_eq!(join_strings(&parts, " "), "a b c");
    assert_eq!(join_strings(&parts, ", "), "a, b, c");
    assert_eq!(join_strings(&vec!["a".to_string()], " "), "a");
    assert_eq!(join_strings(&vec![], " "), "");
    assert_eq!(join_strings(&vec![String::new(), String::new()], "-"), "-");
}

#[test]
fn append_all_and_extend_strings_keep_the_order() {
    let mut out = "x".to_string();
    append_all(&mut out, &vec!["a".to_string(), "bc".to_string()]);
    assert_eq!(out, "xabc");
    let mut list = vec!["1".to_string()];
    extend_strings(&mut list, vec!["2".to_string(), "3".to_string()]);
    assert_eq!(list, vec!["1", "2", "3"]);
}
