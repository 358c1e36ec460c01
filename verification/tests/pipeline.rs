//! End-to-end tests of the HTML-to-rich-text conversion.

use html_richtext::convert::html_to_richtext;
use html_richtext::rich::{RichText, TextElement};

fn runs(rt: &RichText) -> &Vec<TextElement> {
    &rt.rich_text_elements
}

#[test]
fn convert_test() {
    let html = r#"<font color="red">test</font><br><font class="test" color="green">TE<b>S</b>T<br/>TEST</font>"#;
    let result = html_to_richtext(html).unwrap();
    let _ = result;
}

#[test]
fn empty_input_yields_no_runs() {
    let result = html_to_richtext("").unwrap();
    assert_eq!(runs(&result).len(), 0);
}

#[test]
fn br_is_textual_not_a_boundary() {
    let result = html_to_richtext("a<br>b").unwrap();
    assert_eq!(runs(&result).len(), 1);
    assert_eq!(runs(&result)[0].text, "a\nb");
    let font = &runs(&result)[0].run_properties;
    assert_eq!(font.name, None);
    assert_eq!(font.size, None);
    assert_eq!(font.color, None);
    assert_eq!(font.bold, None);
    assert_eq!(font.italic, None);
    assert_eq!(font.underline, None);
    assert_eq!(font.superscript, None);
    assert_eq!(font.subscript, None);
    assert_eq!(font.strikethrough, None);
}

#[test]
fn red_font_resolves_to_hex() {
    let result = html_to_richtext(r#"<font color="red">test</font>"#).unwrap();
    assert_eq!(runs(&result).len(), 1);
    assert_eq!(runs(&result)[0].text, "test");
    assert_eq!(runs(&result)[0].run_properties.color, Some("FF0000".to_string()));
}

#[test]
fn face_and_bold_from_same_stack() {
    let result = html_to_richtext(r#"<font face="Arial"><b>x</b></font>"#).unwrap();
    assert_eq!(runs(&result).len(), 1);
    assert_eq!(runs(&result)[0].text, "x");
    let font = &runs(&result)[0].run_properties;
    assert_eq!(font.name, Some("Arial".to_string()));
    assert_eq!(font.bold, Some(true));
}

#[test]
fn outer_font_color_wins() {
    let result =
        html_to_richtext(r#"<font color="red"><font color="blue">x</font></font>"#).unwrap();
    assert_eq!(runs(&result).len(), 1);
    assert_eq!(runs(&result)[0].text, "x");
    assert_eq!(runs(&result)[0].run_properties.color, Some("FF0000".to_string()));
}

#[test]
fn empty_element_contributes_no_runs() {
    let result = html_to_richtext(r#"<font color="red"></font>"#).unwrap();
    assert_eq!(runs(&result).len(), 0);
}

#[test]
fn regression_fixture_runs_and_facets() {
    let html = r##"<font color="red">test</font><br><font class="test" color="#48D1CC">TE<b>S</b>T<br/>TEST</font>"##;
    let result = html_to_richtext(html).unwrap();
    let rs = runs(&result);
    assert_eq!(rs.len(), 5);

    assert_eq!(rs[0].text, "test");
    assert_eq!(rs[0].run_properties.color, Some("FF0000".to_string()));
    assert_eq!(rs[0].run_properties.bold, None);

    assert_eq!(rs[1].text, "\n");
    assert_eq!(rs[1].run_properties.color, None);
    assert_eq!(rs[1].run_properties.bold, None);

    assert_eq!(rs[2].text, "TE");
    assert_eq!(rs[2].run_properties.color, Some("48D1CC".to_string()));
    assert_eq!(rs[2].run_properties.bold, None);

    assert_eq!(rs[3].text, "S");
    assert_eq!(rs[3].run_properties.color, Some("48D1CC".to_string()));
    assert_eq!(rs[3].run_properties.bold, Some(true));

    assert_eq!(rs[4].text, "T\nTEST");
    assert_eq!(rs[4].run_properties.color, Some("48D1CC".to_string()));
    assert_eq!(rs[4].run_properties.bold, None);
}

#[test]
fn valid_size_token_becomes_facet() {
    let result = html_to_richtext(r#"<font size="10.5">x</font>"#).unwrap();
    assert_eq!(runs(&result)[0].run_properties.size, Some("10.5".to_string()));
}

#[test]
fn unparsable_size_yields_no_facet() {
    let result = html_to_richtext(r#"<font size="big">x</font>"#).unwrap();
    assert_eq!(runs(&result)[0].run_properties.size, None);
}

#[test]
fn style_tags_set_their_facets() {
    let result =
        html_to_richtext("<i>a</i><u>b</u><sup>c</sup><sub>d</sub><del>e</del><strong>f</strong>")
            .unwrap();
    let rs = runs(&result);
    assert_eq!(rs.len(), 6);
    assert_eq!(rs[0].run_properties.italic, Some(true));
    assert_eq!(rs[1].run_properties.underline, Some(true));
    assert_eq!(rs[2].run_properties.superscript, Some(true));
    assert_eq!(rs[3].run_properties.subscript, Some(true));
    assert_eq!(rs[4].run_properties.strikethrough, Some(true));
    assert_eq!(rs[5].run_properties.bold, Some(true));
}

#[test]
fn parser_failure_is_terminal() {
    let result = html_to_richtext("<div></div><body></body>");
    assert!(result.is_err());
    let err = result.err().unwrap();
    assert!(!err.message.is_empty());
}
