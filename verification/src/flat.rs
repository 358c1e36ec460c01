//! Flat runs and element contexts.
//!
//! A flat run ([`HtmlFlatData`]) is a maximal span of text observed under one
//! constant stack of enclosing elements; an element context ([`HfdElement`])
//! is an immutable snapshot of one enclosing element's name, attributes and
//! classes.  At the specification level a run is modelled by [`RunView`] and
//! a context by [`CtxView`].

use vstd::prelude::*;
use crate::strutil::str_eq;

verus! {

/// Specification-level model of one enclosing element: its name, its
/// attributes as a map from attribute name to value, and its class list.
/// Attributes are modelled as a map, not a list, so that a context does not
/// depend on the order in which the parser's attribute map was walked.
#[verifier::ext_equal]
pub struct CtxView {
    pub name: Seq<char>,
    pub attrs: Map<Seq<char>, Seq<char>>,
    pub classes: Seq<Seq<char>>,
}

/// Specification-level model of one flat run: its text and the stack of
/// enclosing elements, outer-to-inner.
#[verifier::ext_equal]
pub struct RunView {
    pub text: Seq<char>,
    pub ancestors: Seq<CtxView>,
}

/// Immutable snapshot of one enclosing element.
pub struct HfdElement {
    pub name: String,
    pub attributes: Vec<(String, String)>,
    pub classes: Vec<String>,
}

impl DeepView for HfdElement {
    type V = CtxView;

    open spec fn deep_view(&self) -> CtxView {
        CtxView {
            name: self.name@,
            attrs: attrs_map(self.attributes.deep_view()),
            classes: self.classes.deep_view(),
        }
    }
}

/// One flat run: a span of text together with the ordered stack of enclosing
/// elements (outer-to-inner) active while the text was observed.
pub struct HtmlFlatData {
    pub text: String,
    pub element: Vec<HfdElement>,
}

impl DeepView for HtmlFlatData {
    type V = RunView;

    open spec fn deep_view(&self) -> RunView {
        RunView { text: self.text@, ancestors: self.element.deep_view() }
    }
}

/// The element-wise deep view of a sequence of values.
pub open spec fn seq_deep<T: DeepView>(s: Seq<T>) -> Seq<T::V> {
    Seq::new(s.len(), |i: int| s[i].deep_view())
}

/// A vector's deep view is the element-wise deep view of its shallow view.
pub proof fn lemma_vec_deep<T: DeepView>(v: Vec<T>)
    ensures
        v.deep_view() == seq_deep(v@),
{
    assert(v.deep_view() =~= seq_deep(v@));
}

/// Deep-viewing commutes with appending one element.
pub proof fn lemma_seq_deep_push<T: DeepView>(s: Seq<T>, x: T)
    ensures
        seq_deep(s.push(x)) == seq_deep(s).push(x.deep_view()),
{
    assert(seq_deep(s.push(x)) =~= seq_deep(s).push(x.deep_view()));
}

/// Deep-viewing commutes with concatenation.
pub proof fn lemma_seq_deep_add<T: DeepView>(s: Seq<T>, t: Seq<T>)
    ensures
        seq_deep(s + t) == seq_deep(s) + seq_deep(t),
{
    assert(seq_deep(s + t) =~= seq_deep(s) + seq_deep(t));
}

/// Dropping the first element of a suffix yields the next suffix.
pub proof fn lemma_skip_step<A>(s: Seq<A>, i: int)
    requires
        0 <= i < s.len(),
    ensures
        s.skip(i).len() == s.len() - i,
        s.skip(i)[0] == s[i],
        s.skip(i).drop_first() == s.skip(i + 1),
{
    assert(s.skip(i).drop_first() =~= s.skip(i + 1));
}

/// The value of the first pair in `attrs` whose key is `key`, if any.
/// Attribute lists hold each key at most once, so this is plain map lookup.
pub open spec fn attr_lookup(attrs: Seq<(Seq<char>, Seq<char>)>, key: Seq<char>) -> Option<
    Seq<char>,
>
    decreases attrs.len(),
{
    if attrs.len() == 0 {
        None
    } else if attrs[0].0 == key {
        Some(attrs[0].1)
    } else {
        attr_lookup(attrs.drop_first(), key)
    }
}

/// The attribute map described by a list of key/value pairs: a key maps to
/// the value of its first pair.  Two lists that order the same unique keys
/// differently describe the same map.
pub open spec fn attrs_map(attrs: Seq<(Seq<char>, Seq<char>)>) -> Map<Seq<char>, Seq<char>> {
    Map::new(
        |k: Seq<char>| attr_lookup(attrs, k) is Some,
        |k: Seq<char>| attr_lookup(attrs, k)->0,
    )
}

/// The value of attribute `attr` of context `c`, provided `c` is named
/// `name`; `None` otherwise.
pub open spec fn ctx_attr(c: CtxView, name: Seq<char>, attr: Seq<char>) -> Option<Seq<char>> {
    if c.name == name && c.attrs.dom().contains(attr) {
        Some(c.attrs[attr])
    } else {
        None
    }
}

/// Whether context `c` carries class `class`.
pub open spec fn ctx_has_class(c: CtxView, class: Seq<char>) -> bool {
    exists|i: int| 0 <= i < c.classes.len() && c.classes[i] == class
}

impl HfdElement {
    /// Whether this element's tag name is exactly `name`.
    pub fn has_name(&self, name: &str) -> (r: bool)
        ensures
            r == (self.deep_view().name == name@),
    {
        str_eq(self.name.as_str(), name)
    }

    /// The value of attribute `attribute`, provided this element is named
    /// `name`; `None` if the name differs or the attribute is missing.
    pub fn get_by_name_and_attribute(&self, name: &str, attribute: &str) -> (r: Option<String>)
        ensures
            r.deep_view() == ctx_attr(self.deep_view(), name@, attribute@),
    {
        if !str_eq(self.name.as_str(), name) {
            return None;
        }
        let ghost key = attribute@;
        let ghost attrs = self.attributes.deep_view();
        proof {
            assert(attrs.skip(0) =~= attrs);
        }
        let mut i: usize = 0;
        while i < self.attributes.len()
            invariant
                i <= self.attributes.len(),
                attrs == self.attributes.deep_view(),
                key == attribute@,
                self.deep_view().name == name@,
                attr_lookup(attrs.skip(i as int), key) == attr_lookup(attrs, key),
            decreases self.attributes.len() - i,
        {
            proof {
                assert(attrs.skip(i as int)[0] == attrs[i as int]);
                assert(attrs.skip(i as int).drop_first() =~= attrs.skip(i as int + 1));
            }
            if str_eq(self.attributes[i].0.as_str(), attribute) {
                let value = self.attributes[i].1.clone();
                proof {
                    assert(attrs[i as int] == self.attributes@[i as int].deep_view());
                    assert(attrs[i as int].0 == key);
                    assert(attr_lookup(attrs.skip(i as int), key) == Some(attrs[i as int].1));
                    assert(value@ == attrs[i as int].1);
                    assert(self.deep_view().attrs.dom().contains(key));
                    assert(self.deep_view().attrs[key] == value@);
                }
                return Some(value);
            }
            i = i + 1;
        }
        proof {
            assert(attrs.skip(self.attributes.len() as int) =~= Seq::<(Seq<char>, Seq<char>)>::empty());
            assert(!self.deep_view().attrs.dom().contains(key));
        }
        None
    }

    /// Whether this element's class list contains `class`.
    pub fn contains_class(&self, class: &str) -> (r: bool)
        ensures
            r == ctx_has_class(self.deep_view(), class@),
    {
        let ghost classes = self.classes.deep_view();
        let mut i: usize = 0;
        while i < self.classes.len()
            invariant
                i <= self.classes.len(),
                classes == self.classes.deep_view(),
                forall|j: int| 0 <= j < i ==> classes[j] != class@,
            decreases self.classes.len() - i,
        {
            if str_eq(self.classes[i].as_str(), class) {
                proof {
                    assert(classes[i as int] == self.classes@[i as int].deep_view());
                    assert(self.deep_view().classes[i as int] == class@);
                }
                return true;
            }
            i = i + 1;
        }
        false
    }

    /// An independent copy of this element: same name, attributes and
    /// classes, sharing no storage with the original.
    pub fn duplicate(&self) -> (r: Self)
        ensures
            r.deep_view() == self.deep_view(),
    {
        let r = HfdElement {
            name: self.name.clone(),
            attributes: copy_pairs(&self.attributes),
            classes: copy_strings(&self.classes),
        };
        proof {
            assert(r.deep_view() =~~= self.deep_view());
        }
        r
    }
}

/// An independent, value-equal copy of a list of key/value pairs.
pub fn copy_pairs(v: &Vec<(String, String)>) -> (r: Vec<(String, String)>)
    ensures
        r@ == v@,
{
    let mut r: Vec<(String, String)> = Vec::new();
    let mut i: usize = 0;
    while i < v.len()
        invariant
            i <= v.len(),
            r@ =~= v@.subrange(0, i as int),
        decreases v.len() - i,
    {
        let pair = (v[i].0.clone(), v[i].1.clone());
        proof {
            assert(pair == v@[i as int]);
        }
        r.push(pair);
        proof {
            assert(r@ =~= v@.subrange(0, i as int + 1));
        }
        i = i + 1;
    }
    proof {
        assert(r@ =~= v@);
    }
    r
}

/// An independent, value-equal copy of a list of strings.
pub fn copy_strings(v: &Vec<String>) -> (r: Vec<String>)
    ensures
        r@ == v@,
{
    let mut r: Vec<String> = Vec::new();
    let mut i: usize = 0;
    while i < v.len()
        invariant
            i <= v.len(),
            r@ =~= v@.subrange(0, i as int),
        decreases v.len() - i,
    {
        r.push(v[i].clone());
        proof {
            assert(r@ =~= v@.subrange(0, i as int + 1));
        }
        i = i + 1;
    }
    proof {
        assert(r@ =~= v@);
    }
    r
}

/// An independent copy of a stack of element contexts.
pub fn copy_elements(v: &Vec<HfdElement>) -> (r: Vec<HfdElement>)
    ensures
        r.deep_view() == v.deep_view(),
{
    let mut r: Vec<HfdElement> = Vec::new();
    let mut i: usize = 0;
    while i < v.len()
        invariant
            i <= v.len(),
            r.deep_view() =~= v.deep_view().subrange(0, i as int),
        decreases v.len() - i,
    {
        let e = v[i].duplicate();
        let ghost pre = r@;
        proof {
            lemma_vec_deep(r);
        }
        r.push(e);
        proof {
            lemma_vec_deep(r);
            lemma_seq_deep_push(pre, e);
            assert(r@ == pre.push(e));
            assert(e.deep_view() == v.deep_view()[i as int]);
            assert(r.deep_view() =~= v.deep_view().subrange(0, i as int + 1));
        }
        i = i + 1;
    }
    proof {
        assert(r.deep_view() =~= v.deep_view());
    }
    r
}

} // verus!
