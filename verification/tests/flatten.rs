//! Tests of the flattener on hand-built trees, where run boundaries and
//! ancestor stacks are directly observable.

use html_richtext::flat::HfdElement;
use html_richtext::node::{HtmlElement, HtmlNode, read_node};

fn element(name: &str, children: Vec<HtmlNode>) -> HtmlNode {
    HtmlNode::Element(HtmlElement {
        name: name.to_string(),
        attributes: Vec::new(),
        classes: Vec::new(),
        children,
    })
}

#[test]
fn empty_sibling_list_flattens_to_nothing() {
    let nodes: Vec<HtmlNode> = Vec::new();
    let parents: Vec<HfdElement> = Vec::new();
    let result = read_node(&nodes, &parents);
    assert_eq!(result.len(), 0);
}

#[test]
fn text_br_text_stays_one_run() {
    let nodes = vec![
        HtmlNode::Text("a".to_string()),
        element("br", Vec::new()),
        HtmlNode::Text("b".to_string()),
    ];
    let result = read_node(&nodes, &Vec::new());
    assert_eq!(result.len(), 1);
    assert_eq!(result[0].text, "a\nb");
    assert_eq!(result[0].element.len(), 0);
}

#[test]
fn element_forces_run_boundary_and_extends_stack() {
    let nodes = vec![
        HtmlNode::Text("x".to_string()),
        element("div", vec![HtmlNode::Text("y".to_string())]),
        HtmlNode::Text("z".to_string()),
    ];
    let result = read_node(&nodes, &Vec::new());
    assert_eq!(result.len(), 3);
    assert_eq!(result[0].text, "x");
    assert_eq!(result[0].element.len(), 0);
    assert_eq!(result[1].text, "y");
    assert_eq!(result[1].element.len(), 1);
    assert!(result[1].element[0].has_name("div"));
    assert_eq!(result[2].text, "z");
    assert_eq!(result[2].element.len(), 0);
}

#[test]
fn empty_element_is_dropped_silently() {
    let nodes = vec![element("span", Vec::new())];
    let result = read_node(&nodes, &Vec::new());
    assert_eq!(result.len(), 0);
}

#[test]
fn other_node_kinds_are_ignored() {
    let nodes = vec![
        HtmlNode::Text("a".to_string()),
        HtmlNode::Other,
        HtmlNode::Text("b".to_string()),
    ];
    let result = read_node(&nodes, &Vec::new());
    assert_eq!(result.len(), 1);
    assert_eq!(result[0].text, "ab");
}

#[test]
fn runs_own_independent_ancestor_copies() {
    let inner = element("b", vec![HtmlNode::Text("one".to_string())]);
    let outer = HtmlNode::Element(HtmlElement {
        name: "font".to_string(),
        attributes: vec![("color".to_string(), "red".to_string())],
        classes: vec!["c1".to_string()],
        children: vec![inner, HtmlNode::Text("two".to_string())],
    });
    let result = read_node(&vec![outer], &Vec::new());
    assert_eq!(result.len(), 2);
    assert_eq!(result[0].text, "one");
    assert_eq!(result[0].element.len(), 2);
    assert!(result[0].element[0].has_name("font"));
    assert!(result[0].element[0].contains_class("c1"));
    assert_eq!(
        result[0].element[0].get_by_name_and_attribute("font", "color"),
        Some("red".to_string())
    );
    assert!(result[0].element[1].has_name("b"));
    assert_eq!(result[1].text, "two");
    assert_eq!(result[1].element.len(), 1);
    assert!(result[1].element[0].has_name("font"));
}

#[test]
fn context_accessors_answer_by_name() {
    let ctx = HfdElement {
        name: "font".to_string(),
        attributes: vec![("size".to_string(), "12".to_string())],
        classes: vec!["a".to_string(), "b".to_string()],
    };
    assert!(ctx.has_name("font"));
    assert!(!ctx.has_name("div"));
    assert_eq!(ctx.get_by_name_and_attribute("font", "size"), Some("12".to_string()));
    assert_eq!(ctx.get_by_name_and_attribute("div", "size"), None);
    assert_eq!(ctx.get_by_name_and_attribute("font", "color"), None);
    assert!(ctx.contains_class("a"));
    assert!(ctx.contains_class("b"));
    assert!(!ctx.contains_class("c"));
}
