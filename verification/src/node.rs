//! The markup tree and the flattener.
//!
//! [`HtmlNode`] is one node of a parsed markup tree: a text span, an element
//! with attributes, classes and children, or some other node kind (ignored).
//! [`read_node`] walks an ordered sibling list and produces the ordered list
//! of flat runs, exactly as described by the specification function
//! [`flatten_nodes`]: text accumulates into the current run, a `br` element
//! appends a line-separator character without starting a new run, and any
//! other element forces a run boundary and is recursed into under an
//! extended ancestor stack.

use vstd::prelude::*;
use crate::flat::{
    CtxView, HfdElement, HtmlFlatData, RunView, attrs_map, copy_elements, copy_pairs,
    copy_strings, lemma_seq_deep_add, lemma_seq_deep_push, lemma_skip_step, lemma_vec_deep,
};
use crate::strutil::str_eq;

verus! {

/// One node of the markup tree.
pub enum HtmlNode {
    /// A text span.
    Text(String),
    /// An element with its children.
    Element(HtmlElement),
    /// Any other node kind (a comment, say); it carries no text and forces
    /// no run boundary.
    Other,
}

/// An element node: name, attributes (key/value pairs, keys unique),
/// classes, and ordered children.
pub struct HtmlElement {
    pub name: String,
    pub attributes: Vec<(String, String)>,
    pub classes: Vec<String>,
    pub children: Vec<HtmlNode>,
}

/// Specification-level model of one markup node.
#[verifier::ext_equal]
pub enum NodeView {
    Text(Seq<char>),
    Element(ElemView),
    Other,
}

/// Specification-level model of one element node.  As in [`CtxView`], the
/// attributes are a map, so the model does not depend on the order in which
/// an attribute list was walked.
#[verifier::ext_equal]
pub struct ElemView {
    pub name: Seq<char>,
    pub attrs: Map<Seq<char>, Seq<char>>,
    pub classes: Seq<Seq<char>>,
    pub children: Seq<NodeView>,
}

/// The model of one markup node.
pub open spec fn node_view(n: HtmlNode) -> NodeView
    decreases n,
{
    match n {
        HtmlNode::Text(t) => NodeView::Text(t@),
        HtmlNode::Element(e) => NodeView::Element(elem_view(e)),
        HtmlNode::Other => NodeView::Other,
    }
}

/// The model of one element node.
pub open spec fn elem_view(e: HtmlElement) -> ElemView
    decreases e,
{
    ElemView {
        name: e.name@,
        attrs: attrs_map(e.attributes.deep_view()),
        classes: e.classes.deep_view(),
        children: nodes_view(e.children@),
    }
}

/// The model of an ordered sibling list.
pub open spec fn nodes_view(ns: Seq<HtmlNode>) -> Seq<NodeView>
    decreases ns,
{
    if ns.len() == 0 {
        Seq::empty()
    } else {
        seq![node_view(ns[0])] + nodes_view(ns.drop_first())
    }
}

pub proof fn lemma_nodes_view_len(ns: Seq<HtmlNode>)
    ensures
        nodes_view(ns).len() == ns.len(),
    decreases ns.len(),
{
    if ns.len() > 0 {
        lemma_nodes_view_len(ns.drop_first());
    }
}

pub proof fn lemma_nodes_view_index(ns: Seq<HtmlNode>, i: int)
    requires
        0 <= i < ns.len(),
    ensures
        nodes_view(ns)[i] == node_view(ns[i]),
    decreases i,
{
    lemma_nodes_view_len(ns.drop_first());
    if i > 0 {
        lemma_nodes_view_index(ns.drop_first(), i - 1);
        assert(ns.drop_first()[i - 1] == ns[i]);
    }
}

/// The context snapshot that an element contributes to the ancestor stack.
pub open spec fn elem_ctx(e: ElemView) -> CtxView {
    CtxView { name: e.name, attrs: e.attrs, classes: e.classes }
}

/// The flush of an accumulated run: a run is emitted only when its text is
/// non-empty; an empty accumulator vanishes rather than yielding a
/// zero-length run.
pub open spec fn flush(acc: Seq<char>, anc: Seq<CtxView>) -> Seq<RunView> {
    if acc.len() > 0 {
        seq![RunView { text: acc, ancestors: anc }]
    } else {
        Seq::empty()
    }
}

/// The flattening of a sibling list under inherited ancestor stack `anc`,
/// with `acc` the text accumulated so far under that stack.
///
/// Text appends to the accumulator; a `br` element appends one
/// line-separator character without a boundary; any other element flushes
/// the accumulator, contributes its children's runs under the extended
/// stack, and the walk resumes with an empty accumulator; any other node
/// kind is ignored.  The accumulator is flushed once the list is exhausted.
pub open spec fn flatten_from(nodes: Seq<NodeView>, anc: Seq<CtxView>, acc: Seq<char>) -> Seq<
    RunView,
>
    decreases nodes,
{
    if nodes.len() == 0 {
        flush(acc, anc)
    } else {
        match nodes[0] {
            NodeView::Text(t) => flatten_from(nodes.drop_first(), anc, acc + t),
            NodeView::Element(e) => {
                if e.name == "br"@ {
                    flatten_from(nodes.drop_first(), anc, acc + "\n"@)
                } else {
                    flush(acc, anc) + flatten_from(e.children, anc.push(elem_ctx(e)), Seq::empty())
                        + flatten_from(nodes.drop_first(), anc, Seq::empty())
                }
            },
            NodeView::Other => flatten_from(nodes.drop_first(), anc, acc),
        }
    }
}

/// The flattening of a sibling list under inherited ancestor stack `anc`:
/// document order, starting from an empty accumulator.
pub open spec fn flatten_nodes(nodes: Seq<NodeView>, anc: Seq<CtxView>) -> Seq<RunView> {
    flatten_from(nodes, anc, Seq::empty())
}

/// Flattening an empty sibling list yields an empty run list, whatever the
/// inherited ancestor stack.
pub proof fn lemma_flatten_empty(anc: Seq<CtxView>)
    ensures
        flatten_nodes(Seq::empty(), anc) == Seq::<RunView>::empty(),
{
    assert(flatten_nodes(Seq::empty(), anc) =~= Seq::<RunView>::empty());
}

/// An element with no text and no children — an empty tag with only
/// attributes, say — contributes zero runs to the output: it is silently
/// dropped, not emitted as a zero-length run.  (A `br` element is the one
/// exception: it contributes a line-separator character.)
pub proof fn lemma_empty_element_no_runs(e: ElemView, anc: Seq<CtxView>)
    requires
        e.children.len() == 0,
        e.name != "br"@,
    ensures
        flatten_nodes(seq![NodeView::Element(e)], anc) == Seq::<RunView>::empty(),
{
    let nodes = seq![NodeView::Element(e)];
    assert(nodes.drop_first() =~= Seq::<NodeView>::empty());
    assert(e.children =~= Seq::<NodeView>::empty());
    assert(nodes[0] == NodeView::Element(e));
    assert(flatten_from(e.children, anc.push(elem_ctx(e)), Seq::empty())
        == Seq::<RunView>::empty());
    assert(flatten_from(nodes.drop_first(), anc, Seq::empty()) == Seq::<RunView>::empty());
    assert(flatten_nodes(nodes, anc) =~= Seq::<RunView>::empty());
}

/// A line break is textual, not a formatting boundary: a `br` element at
/// the front of a sibling list appends one line-separator character to the
/// accumulated text and the walk continues in the same run — it neither
/// flushes the accumulator nor contributes to the ancestor stack.
pub proof fn lemma_br_is_textual(e: ElemView, rest: Seq<NodeView>, anc: Seq<CtxView>, acc: Seq<
    char,
>)
    requires
        e.name == "br"@,
    ensures
        flatten_from(seq![NodeView::Element(e)] + rest, anc, acc) == flatten_from(
            rest,
            anc,
            acc + "\n"@,
        ),
{
    let nodes = seq![NodeView::Element(e)] + rest;
    assert(nodes[0] == NodeView::Element(e));
    assert(nodes.drop_first() =~= rest);
}

/// Flattens the ordered sibling list `node_list` under the inherited
/// ancestor stack `parent_element` (empty at the document root) into the
/// ordered list of flat runs, in document order.  Every produced run owns an
/// independent copy of its ancestor stack.
pub fn read_node(node_list: &Vec<HtmlNode>, parent_element: &Vec<HfdElement>) -> (r: Vec<
    HtmlFlatData,
>)
    ensures
        r.deep_view() == flatten_nodes(nodes_view(node_list@), parent_element.deep_view()),
    decreases node_list@,
{
    let ghost anc = parent_element.deep_view();
    let ghost all = nodes_view(node_list@);
    proof {
        lemma_nodes_view_len(node_list@);
        assert(all.skip(0) =~= all);
    }
    let mut result: Vec<HtmlFlatData> = Vec::new();
    let mut data = HtmlFlatData { text: String::new(), element: copy_elements(parent_element) };
    let mut i: usize = 0;
    while i < node_list.len()
        invariant
            i <= node_list.len(),
            all == nodes_view(node_list@),
            all.len() == node_list@.len(),
            anc == parent_element.deep_view(),
            data.element.deep_view() == anc,
            result.deep_view() + flatten_from(all.skip(i as int), anc, data.text@)
                == flatten_from(all, anc, Seq::empty()),
        decreases node_list@.len() - i,
    {
        proof {
            lemma_skip_step(all, i as int);
            lemma_nodes_view_index(node_list@, i as int);
        }
        let ghost acc0 = data.text@;
        let ghost res0 = result.deep_view();
        let node = &node_list[i];
        match node {
            HtmlNode::Text(t) => {
                data.text.append(t.as_str());
                proof {
                    assert(all[i as int] == NodeView::Text(t@));
                    assert(flatten_from(all.skip(i as int), anc, acc0) == flatten_from(
                        all.skip(i as int + 1),
                        anc,
                        acc0 + t@,
                    ));
                }
            },
            HtmlNode::Element(element) => {
                if str_eq(element.name.as_str(), "br") {
                    data.text.append("\n");
                    proof {
                        assert(all[i as int] == NodeView::Element(elem_view(*element)));
                        assert(flatten_from(all.skip(i as int), anc, acc0) == flatten_from(
                            all.skip(i as int + 1),
                            anc,
                            acc0 + "\n"@,
                        ));
                    }
                } else {
                    let ghost e = elem_view(*element);
                    proof {
                        assert(all[i as int] == NodeView::Element(e));
                        assert(flatten_from(all.skip(i as int), anc, acc0) == flush(acc0, anc)
                            + flatten_from(e.children, anc.push(elem_ctx(e)), Seq::empty())
                            + flatten_from(all.skip(i as int + 1), anc, Seq::empty()));
                    }
                    if !data.text.as_str().is_empty() {
                        let ghost d = data.deep_view();
                        let ghost pre = result@;
                        proof {
                            lemma_vec_deep(result);
                        }
                        result.push(data);
                        proof {
                            lemma_vec_deep(result);
                            lemma_seq_deep_push(pre, result@[pre.len() as int]);
                            assert(result@ == pre.push(result@[pre.len() as int]));
                            assert(result.deep_view() == res0.push(d));
                            assert(res0.push(d) =~= res0 + flush(acc0, anc));
                        }
                        data = HtmlFlatData {
                            text: String::new(),
                            element: copy_elements(parent_element),
                        };
                    }
                    proof {
                        assert(result.deep_view() =~= res0 + flush(acc0, anc));
                    }
                    let ghost res1 = result.deep_view();
                    let elm = HfdElement {
                        name: element.name.clone(),
                        attributes: copy_pairs(&element.attributes),
                        classes: copy_strings(&element.classes),
                    };
                    let ghost anc1 = data.element.deep_view();
                    let ghost pre_elems = data.element@;
                    proof {
                        lemma_vec_deep(data.element);
                        assert(elm.deep_view() =~~= elem_ctx(e));
                    }
                    data.element.push(elm);
                    proof {
                        lemma_vec_deep(data.element);
                        lemma_seq_deep_push(pre_elems, data.element@[pre_elems.len() as int]);
                        assert(data.element@ == pre_elems.push(data.element@[pre_elems.len() as int]));
                        assert(data.element.deep_view() == anc.push(elem_ctx(e)));
                    }
                    let mut children_runs = read_node(&element.children, &data.element);
                    let ghost cdeep = children_runs.deep_view();
                    let ghost cpre = children_runs@;
                    let ghost rpre = result@;
                    proof {
                        lemma_vec_deep(children_runs);
                        lemma_vec_deep(result);
                        assert(cdeep == flatten_from(e.children, anc.push(elem_ctx(e)), Seq::empty()));
                    }
                    result.append(&mut children_runs);
                    proof {
                        lemma_vec_deep(result);
                        lemma_seq_deep_add(rpre, cpre);
                        assert(result@ == rpre + cpre);
                        assert(result.deep_view() == res1 + cdeep);
                    }
                    data = HtmlFlatData {
                        text: String::new(),
                        element: copy_elements(parent_element),
                    };
                    proof {
                        assert(result.deep_view() + flatten_from(all.skip(i as int + 1), anc, data.text@)
                            =~= res0 + flatten_from(all.skip(i as int), anc, acc0));
                    }
                }
            },
            HtmlNode::Other => {
                proof {
                    assert(all[i as int] == NodeView::Other);
                    assert(flatten_from(all.skip(i as int), anc, acc0) == flatten_from(
                        all.skip(i as int + 1),
                        anc,
                        acc0,
                    ));
                }
            },
        }
        i = i + 1;
    }
    proof {
        assert(all.skip(node_list@.len() as int) =~= Seq::<NodeView>::empty());
        assert(flatten_from(all.skip(i as int), anc, data.text@) == flush(data.text@, anc));
    }
    if !data.text.as_str().is_empty() {
        let ghost d = data.deep_view();
        let ghost pre = result@;
        proof {
            lemma_vec_deep(result);
        }
        let ghost res0 = result.deep_view();
        result.push(data);
        proof {
            lemma_vec_deep(result);
            lemma_seq_deep_push(pre, result@[pre.len() as int]);
            assert(result@ == pre.push(result@[pre.len() as int]));
            assert(result.deep_view() == res0.push(d));
            assert(res0.push(d) =~= res0 + flush(d.text, anc));
        }
    } else {
        proof {
            assert(result.deep_view() =~= result.deep_view() + flush(data.text@, anc));
        }
    }
    result
}

} // verus!
