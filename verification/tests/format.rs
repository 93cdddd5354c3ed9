use xml_fmt::{format_xml, FormatError, Indent, Token};

fn fmt(src: &[u8], indent: Indent) -> String {
    String::from_utf8(format_xml(src, &indent).unwrap()).unwrap()
}

#[test]
fn two_space_stdout_scenario() {
    let out = fmt(b"<a><b/>  <c>text</c></a>", Indent::Two);
    assert_eq!(out, "<a>\n  <b/>\n  <c>text</c>\n</a>");
}

#[test]
fn mismatched_end_tag_is_parse_error() {
    let r = format_xml(b"<a><b></a>", &Indent::Tab);
    assert!(matches!(r, Err(FormatError::Parse(_))));
    let r = format_xml(b"<a><b></a>", &Indent::Two);
    assert!(matches!(r, Err(FormatError::Parse(_))));
}

#[test]
fn comment_preserved_verbatim_with_tab() {
    let out = fmt(b"<a><!-- note --></a>", Indent::Tab);
    assert_eq!(out, "<a>\n\t<!-- note -->\n</a>");
    assert!(out.contains("<!-- note -->"));
}

#[test]
fn formatting_is_idempotent() {
    let src: &[u8] = b"<root a=\"1\">\n   <item>one</item><item b=\"2\"><sub/></item>\n<!--c--><![CDATA[x<y]]></root>";
    for indent in [Indent::Tab, Indent::Two, Indent::Four] {
        let once = format_xml(src, &indent).unwrap();
        let twice = format_xml(&once, &indent).unwrap();
        assert_eq!(once, twice);
    }
}

#[test]
fn structure_is_preserved() {
    let out = fmt(
        b"<r x=\"1\" y=\"2\"><b>t</b><![CDATA[raw]]><!--k--><?pi data?></r>",
        Indent::Two,
    );
    // Attribute names, values and order survive, as do text, CDATA, comment
    // and processing-instruction content.
    assert!(out.contains("<r x=\"1\" y=\"2\">"));
    assert!(out.contains("<b>t</b>"));
    assert!(out.contains("<![CDATA[raw]]>"));
    assert!(out.contains("<!--k-->"));
    assert!(out.contains("<?pi data?>"));
}

#[test]
fn indent_is_depth_times_unit() {
    let out = fmt(b"<r><x><y><z/></y></x></r>", Indent::Four);
    let lines: Vec<&str> = out.lines().collect();
    assert_eq!(
        lines,
        vec![
            "<r>",
            "    <x>",
            "        <y>",
            "            <z/>",
            "        </y>",
            "    </x>",
            "</r>",
        ]
    );

    let out = fmt(b"<r><x><y>t</y></x></r>", Indent::Tab);
    let lines: Vec<&str> = out.lines().collect();
    assert_eq!(lines, vec!["<r>", "\t<x>", "\t\t<y>t</y>", "\t</x>", "</r>"]);
}

#[test]
fn self_closing_element_stays_self_closing() {
    let out = fmt(b"<a><b/></a>", Indent::Two);
    assert_eq!(out, "<a>\n  <b/>\n</a>");
    assert!(!out.contains("<b></b>"));
}

#[test]
fn namespaces_are_kept() {
    let out = fmt(b"<a xmlns:n=\"urn:u\"><n:b/></a>", Indent::Two);
    assert!(out.contains("xmlns:n=\"urn:u\""));
    assert!(out.contains("<n:b/>"));
}

#[test]
fn entities_are_reencoded() {
    let out = fmt(b"<a>x &lt; y &amp; z</a>", Indent::Two);
    assert_eq!(out, "<a>x &lt; y &amp; z</a>");
}

#[test]
fn empty_input_is_parse_error() {
    assert!(matches!(
        format_xml(b"", &Indent::Tab),
        Err(FormatError::Parse(_))
    ));
}

#[test]
fn unclosed_root_is_parse_error() {
    assert!(matches!(
        format_xml(b"<a><b/>", &Indent::Four),
        Err(FormatError::Parse(_))
    ));
}

#[test]
fn declaration_is_not_forwarded() {
    let out = fmt(b"<?xml version=\"1.0\" encoding=\"UTF-8\"?><a/>", Indent::Two);
    assert_eq!(out, "<a/>");
}

#[test]
fn parse_error_message_is_reported() {
    let r = format_xml(b"<a><b></a>", &Indent::Tab);
    match r {
        Err(e) => assert!(!e.message().is_empty()),
        Ok(_) => panic!("malformed input was accepted"),
    }
}

#[test]
fn only_document_markers_are_dropped() {
    assert!(!Token::StartDocument.should_forward());
    assert!(Token::Comment("note".to_owned()).should_forward());
    assert!(Token::Characters("text".to_owned()).should_forward());
    assert!(Token::EndElement { name: "a".to_owned() }.should_forward());
}
