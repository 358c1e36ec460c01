//! The public HTML-to-rich-text entry points.
//!
//! Parsing is delegated to the `html_parser` crate; its tree is converted,
//! node by node, into the crate's own [`HtmlNode`] tree, and everything
//! after that — flattening, formatting analysis, building — is verified
//! code.  A parser failure is terminal: the conversion produces no partial
//! output.

use vstd::prelude::*;
use crate::analysis::{AnalysisMethod, DataAnalysis};
use crate::flat::{CtxView, HfdElement};
use crate::node::{HtmlElement, HtmlNode, NodeView, flatten_nodes, nodes_view, read_node};
use crate::rich::{RichText, rich_of, make_rich_text};

verus! {

/// The error returned when the HTML fragment cannot be parsed.
#[derive(Debug)]
pub struct HtmlError {
    pub message: String,
}

/// Declares `html_parser::Node`, the parser's node type, as an opaque
/// outside type so that the conversion wrappers below can take it.
#[verifier::external_type_specification]
#[verifier::external_body]
pub struct ExNode(html_parser::Node);

/// Declares `html_parser::Element`, the parser's element type, as an
/// opaque outside type so that the conversion wrappers below can take it.
#[verifier::external_type_specification]
#[verifier::external_body]
pub struct ExElement(html_parser::Element);

/// Relies on `html_parser::Node`: a node is a text span, an element, or a
/// comment; a comment becomes [`HtmlNode::Other`].
#[verifier::external_body]
fn convert_node(node: &html_parser::Node) -> HtmlNode {
    match node {
        html_parser::Node::Text(t) => HtmlNode::Text(t.clone()),
        html_parser::Node::Element(e) => HtmlNode::Element(convert_element(e)),
        _ => HtmlNode::Other,
    }
}

/// Relies on `html_parser::Element`'s public fields: `name`, `attributes`
/// (a map from attribute name to optional value; a missing value becomes
/// the empty string), `classes` and `children`.
#[verifier::external_body]
fn convert_element(e: &html_parser::Element) -> HtmlElement {
    let mut attributes: Vec<(String, String)> = Vec::new();
    for (k, v) in e.attributes.iter() {
        attributes.push((k.clone(), v.clone().unwrap_or_default()));
    }
    let mut children: Vec<HtmlNode> = Vec::new();
    for c in e.children.iter() {
        children.push(convert_node(c));
    }
    HtmlElement { name: e.name.clone(), attributes, classes: e.classes.clone(), children }
}

/// The parse of a UTF-8 HTML fragment: `None` when the parser fails on it,
/// otherwise the parsed node forest.  Parsing succeeds or fails, and
/// yields its tree, as a function of the input string alone; the node
/// models carry each element's attributes as a map, so the forest named
/// here is insensitive to the order in which the parser's attribute map
/// happens to be walked.
pub uninterp spec fn parse_of(html: Seq<char>) -> Option<Seq<NodeView>>;

/// Relies on `html_parser::Dom::parse`: builds a node tree from a UTF-8
/// HTML fragment, or fails with a parse error, whose display text becomes
/// the [`HtmlError`] message.  Success and the parsed forest depend only
/// on the input (see [`parse_of`]).
#[verifier::external_body]
fn parse_fragment(html: &str) -> (r: Result<Vec<HtmlNode>, HtmlError>)
    ensures
        r is Ok <==> parse_of(html@) is Some,
        r matches Ok(ns) ==> nodes_view(ns@) == parse_of(html@)->0,
{
    match html_parser::Dom::parse(html) {
        Ok(dom) => {
            let mut nodes: Vec<HtmlNode> = Vec::new();
            for n in dom.children.iter() {
                nodes.push(convert_node(n));
            }
            Ok(nodes)
        },
        Err(e) => Err(HtmlError { message: format!("{}", e) }),
    }
}

/// Generates rich text from an HTML fragment with a custom formatting
/// analysis.  The conversion fails exactly when the parser fails on the
/// fragment; on success the result is the faithful conversion of the
/// fragment's parse: the tree flattened under an empty ancestor stack and
/// every run's facets derived by `method`.
pub fn html_to_richtext_custom<M: AnalysisMethod>(html: &str, method: &M) -> (r: Result<
    RichText,
    HtmlError,
>)
    ensures
        r is Err <==> parse_of(html@) is None,
        r matches Ok(rt) ==> rt.deep_view() == rich_of(
            *method,
            flatten_nodes(parse_of(html@)->0, Seq::empty()),
        ),
{
    match parse_fragment(html) {
        Ok(nodes) => {
            let parent_element: Vec<HfdElement> = Vec::new();
            proof {
                assert(parent_element.deep_view() =~= Seq::<CtxView>::empty());
            }
            let data = read_node(&nodes, &parent_element);
            let result = make_rich_text(&data, method);
            proof {
                assert(result.deep_view() == rich_of(
                    *method,
                    flatten_nodes(parse_of(html@)->0, Seq::empty()),
                ));
            }
            Ok(result)
        },
        Err(e) => Err(e),
    }
}

/// Generates rich text from an HTML fragment with the default formatting
/// analysis ([`DataAnalysis`]): the same result as
/// [`html_to_richtext_custom`] under the default policy.
pub fn html_to_richtext(html: &str) -> (r: Result<RichText, HtmlError>)
    ensures
        r is Err <==> parse_of(html@) is None,
        r matches Ok(rt) ==> rt.deep_view() == rich_of(
            DataAnalysis {  },
            flatten_nodes(parse_of(html@)->0, Seq::empty()),
        ),
{
    html_to_richtext_custom(html, &DataAnalysis::default())
}

} // verus!
