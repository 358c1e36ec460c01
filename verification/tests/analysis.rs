//! Tests of the default formatting analysis over hand-built runs.

use html_richtext::analysis::{AnalysisMethod, DataAnalysis};
use html_richtext::flat::{HfdElement, HtmlFlatData};

fn ctx(name: &str, attrs: &[(&str, &str)]) -> HfdElement {
    HfdElement {
        name: name.to_string(),
        attributes: attrs.iter().map(|(k, v)| (k.to_string(), v.to_string())).collect(),
        classes: Vec::new(),
    }
}

fn run(ancestors: Vec<HfdElement>) -> HtmlFlatData {
    HtmlFlatData { text: "x".to_string(), element: ancestors }
}

#[test]
fn is_tag_sees_any_ancestor() {
    let method = DataAnalysis::default();
    let data = run(vec![ctx("font", &[]), ctx("b", &[])]);
    assert!(method.is_tag(&data, "font"));
    assert!(method.is_tag(&data, "b"));
    assert!(!method.is_tag(&data, "i"));
    assert!(method.is_bold(&data));
    assert!(!method.is_italic(&data));
}

#[test]
fn font_name_takes_outermost_face() {
    let method = DataAnalysis::default();
    let data = run(vec![
        ctx("font", &[("face", "Arial")]),
        ctx("font", &[("face", "Courier")]),
    ]);
    assert_eq!(method.font_name(&data), Some("Arial".to_string()));
}

#[test]
fn font_name_skips_fonts_without_face() {
    let method = DataAnalysis::default();
    let data = run(vec![
        ctx("font", &[("color", "red")]),
        ctx("font", &[("face", "Courier")]),
    ]);
    assert_eq!(method.font_name(&data), Some("Courier".to_string()));
}

#[test]
fn face_on_other_tags_is_ignored() {
    let method = DataAnalysis::default();
    let data = run(vec![ctx("div", &[("face", "Arial")])]);
    assert_eq!(method.font_name(&data), None);
}

#[test]
fn color_of_outermost_font_wins_even_when_unknown() {
    let method = DataAnalysis::default();
    let data = run(vec![
        ctx("font", &[("color", "#010203")]),
        ctx("font", &[("color", "red")]),
    ]);
    assert_eq!(method.color(&data), Some("010203".to_string()));
}

#[test]
fn size_facet_follows_the_outermost_size_attribute() {
    let method = DataAnalysis::default();
    let data = run(vec![ctx("font", &[("size", "12")])]);
    assert_eq!(method.size(&data), Some("12".to_string()));

    let unparsable = run(vec![
        ctx("font", &[("size", "big")]),
        ctx("font", &[("size", "12")]),
    ]);
    assert_eq!(method.size(&unparsable), None);
}
