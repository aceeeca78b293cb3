use html_builder::attribute::Attr;
use html_builder::tag::Tag;

#[test]
fn test_tag_display() {
    assert_eq!(Tag::A.to_string(), "a");
    assert_eq!(Tag::Div.to_string(), "div");
    assert_eq!(Tag::Doctype.to_string(), "!DOCTYPE");
    assert_eq!(Tag::Comment.to_string(), "!--");
}

#[test]
fn test_a_tag_attributes() {
    let mut expected = Attr::global().to_vec();
    expected.extend_from_slice(&[Attr::Href, Attr::Onclick, Attr::Rel, Attr::Target]);

    assert_eq!(Tag::attributes(&Tag::A), expected);
}

#[test]
fn test_button_tag_attributes() {
    let mut expected = Attr::global().to_vec();
    expected.extend_from_slice(&[Attr::Type]);

    assert_eq!(Tag::attributes(&Tag::Button), expected);
}

#[test]
fn test_default_attributes() {
    // Test a tag that falls into the default case
    let all_attrs = Attr::all().to_vec();
    assert_eq!(Tag::attributes(&Tag::Div), all_attrs);
    assert_eq!(Tag::attributes(&Tag::Span), all_attrs);
}
