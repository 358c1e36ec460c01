//! Formatting analysis: deriving formatting facets from a flat run's
//! ancestor stack.
//!
//! The capability is pluggable: [`AnalysisMethod`] is the interface over the
//! fixed facet set, and [`DataAnalysis`] is the default implementation,
//! driven by tag names and `font` attributes with the named color table for
//! color resolution.  A caller may substitute an alternative policy
//! (class-name-driven styling, say) without touching the flattener.

use vstd::prelude::*;
use crate::colors::{resolve_color, resolve_color_token};
use crate::flat::{CtxView, HtmlFlatData, RunView, ctx_attr, lemma_skip_step};
use crate::numtok::{is_number_token, is_numeric_token};

verus! {

/// The attribute value contributed by the outermost ancestor that is named
/// `name` and carries attribute `attr`: the scan runs outer-to-inner and
/// the first match wins.  This deviates deliberately from typical cascade
/// semantics, where the innermost declaration would win.
pub open spec fn first_attr(anc: Seq<CtxView>, name: Seq<char>, attr: Seq<char>) -> Option<
    Seq<char>,
>
    decreases anc.len(),
{
    if anc.len() == 0 {
        None
    } else {
        match ctx_attr(anc[0], name, attr) {
            Some(v) => Some(v),
            None => first_attr(anc.drop_first(), name, attr),
        }
    }
}

/// Whether some ancestor in the stack is named `tag`.
pub open spec fn seq_has_tag(anc: Seq<CtxView>, tag: Seq<char>) -> bool {
    exists|i: int| 0 <= i < anc.len() && anc[i].name == tag
}

/// The outer-vs-inner tie-break, characterized: if ancestor `i` is named
/// `name` and carries attribute `attr`, and no ancestor nearer the root
/// contributes, then the scan returns exactly ancestor `i`'s value — the
/// outermost matching ancestor wins, whatever deeper ancestors carry.
pub proof fn lemma_first_attr_outermost(
    anc: Seq<CtxView>,
    name: Seq<char>,
    attr: Seq<char>,
    i: int,
)
    requires
        0 <= i < anc.len(),
        ctx_attr(anc[i], name, attr) is Some,
        forall|j: int| 0 <= j < i ==> ctx_attr(#[trigger] anc[j], name, attr) is None,
    ensures
        first_attr(anc, name, attr) == ctx_attr(anc[i], name, attr),
    decreases i,
{
    if i > 0 {
        assert(anc.drop_first()[i - 1] == anc[i]);
        assert forall|j: int| 0 <= j < i - 1 implies ctx_attr(
            #[trigger] anc.drop_first()[j],
            name,
            attr,
        ) is None by {
            assert(anc.drop_first()[j] == anc[j + 1]);
        }
        lemma_first_attr_outermost(anc.drop_first(), name, attr, i - 1);
    }
}

/// The scan comes back empty exactly when no ancestor both bears the name
/// and carries the attribute.
pub proof fn lemma_first_attr_none(anc: Seq<CtxView>, name: Seq<char>, attr: Seq<char>)
    ensures
        (first_attr(anc, name, attr) is None) <==> (forall|j: int|
            0 <= j < anc.len() ==> ctx_attr(#[trigger] anc[j], name, attr) is None),
    decreases anc.len(),
{
    if anc.len() > 0 {
        lemma_first_attr_none(anc.drop_first(), name, attr);
        assert forall|j: int| 0 <= j < anc.len() - 1 implies anc.drop_first()[j] == anc[j + 1] by {}
        if ctx_attr(anc[0], name, attr) is None {
            if first_attr(anc.drop_first(), name, attr) is None {
                assert forall|j: int| 0 <= j < anc.len() implies ctx_attr(
                    #[trigger] anc[j],
                    name,
                    attr,
                ) is None by {
                    if j > 0 {
                        assert(anc.drop_first()[j - 1] == anc[j]);
                    }
                }
            }
        }
    }
}

/// The pluggable formatting-analysis capability over one flat run.
///
/// Each facet comes in two forms: a specification form over the run's
/// model, and an executable form whose contract ties its result to the
/// specification form.  An implementation supplies both; the rich-text
/// builder is verified against the specification forms alone, so callers
/// may substitute any policy.
pub trait AnalysisMethod {
    /// Model of [`Self::is_tag`].
    spec fn is_tag_spec(&self, run: RunView, tag: Seq<char>) -> bool;

    /// Model of [`Self::font_name`].
    spec fn font_name_spec(&self, run: RunView) -> Option<Seq<char>>;

    /// Model of [`Self::size`].
    spec fn size_spec(&self, run: RunView) -> Option<Seq<char>>;

    /// Model of [`Self::color`].
    spec fn color_spec(&self, run: RunView) -> Option<Seq<char>>;

    /// Model of [`Self::is_bold`].
    spec fn is_bold_spec(&self, run: RunView) -> bool;

    /// Model of [`Self::is_italic`].
    spec fn is_italic_spec(&self, run: RunView) -> bool;

    /// Model of [`Self::is_underline`].
    spec fn is_underline_spec(&self, run: RunView) -> bool;

    /// Model of [`Self::is_superscript`].
    spec fn is_superscript_spec(&self, run: RunView) -> bool;

    /// Model of [`Self::is_subscript`].
    spec fn is_subscript_spec(&self, run: RunView) -> bool;

    /// Model of [`Self::is_strikethrough`].
    spec fn is_strikethrough_spec(&self, run: RunView) -> bool;

    /// Whether the run sits under an ancestor named `tag`.
    fn is_tag(&self, html_flat_data: &HtmlFlatData, tag: &str) -> (r: bool)
        ensures
            r == self.is_tag_spec(html_flat_data.deep_view(), tag@),
    ;

    /// The run's font-name facet, if any.
    fn font_name(&self, html_flat_data: &HtmlFlatData) -> (r: Option<String>)
        ensures
            r.deep_view() == self.font_name_spec(html_flat_data.deep_view()),
    ;

    /// The run's font-size facet, if any, as a numeric token.
    fn size(&self, html_flat_data: &HtmlFlatData) -> (r: Option<String>)
        ensures
            r.deep_view() == self.size_spec(html_flat_data.deep_view()),
    ;

    /// The run's color facet, if any, resolved against the named color
    /// table.
    fn color(&self, html_flat_data: &HtmlFlatData) -> (r: Option<String>)
        ensures
            r.deep_view() == self.color_spec(html_flat_data.deep_view()),
    ;

    /// Whether the run is bold.
    fn is_bold(&self, html_flat_data: &HtmlFlatData) -> (r: bool)
        ensures
            r == self.is_bold_spec(html_flat_data.deep_view()),
    ;

    /// Whether the run is italic.
    fn is_italic(&self, html_flat_data: &HtmlFlatData) -> (r: bool)
        ensures
            r == self.is_italic_spec(html_flat_data.deep_view()),
    ;

    /// Whether the run is underlined.
    fn is_underline(&self, html_flat_data: &HtmlFlatData) -> (r: bool)
        ensures
            r == self.is_underline_spec(html_flat_data.deep_view()),
    ;

    /// Whether the run is superscript.
    fn is_superscript(&self, html_flat_data: &HtmlFlatData) -> (r: bool)
        ensures
            r == self.is_superscript_spec(html_flat_data.deep_view()),
    ;

    /// Whether the run is subscript.
    fn is_subscript(&self, html_flat_data: &HtmlFlatData) -> (r: bool)
        ensures
            r == self.is_subscript_spec(html_flat_data.deep_view()),
    ;

    /// Whether the run is struck through.
    fn is_strikethrough(&self, html_flat_data: &HtmlFlatData) -> (r: bool)
        ensures
            r == self.is_strikethrough_spec(html_flat_data.deep_view()),
    ;
}

/// Scans the ancestor stack outer-to-inner for the first ancestor named
/// `name` that carries attribute `attr` and returns its value.
fn find_first_attr(data: &HtmlFlatData, name: &str, attr: &str) -> (r: Option<String>)
    ensures
        r.deep_view() == first_attr(data.deep_view().ancestors, name@, attr@),
{
    let ghost anc = data.element.deep_view();
    proof {
        assert(anc.skip(0) =~= anc);
    }
    let mut i: usize = 0;
    while i < data.element.len()
        invariant
            i <= data.element.len(),
            anc == data.element.deep_view(),
            first_attr(anc.skip(i as int), name@, attr@) == first_attr(anc, name@, attr@),
        decreases data.element.len() - i,
    {
        proof {
            lemma_skip_step(anc, i as int);
        }
        let found = data.element[i].get_by_name_and_attribute(name, attr);
        if found.is_some() {
            proof {
                assert(anc[i as int] == data.element@[i as int].deep_view());
            }
            return found;
        }
        i = i + 1;
    }
    proof {
        assert(anc.skip(data.element@.len() as int) =~= Seq::<CtxView>::empty());
    }
    None
}

/// The default formatting analysis: tag names and `font` attributes,
/// consulting the named color table.
pub struct DataAnalysis {}

impl Default for DataAnalysis {
    fn default() -> (r: Self)
        ensures
            r == (DataAnalysis {  }),
    {
        DataAnalysis {  }
    }
}

impl AnalysisMethod for DataAnalysis {
    open spec fn is_tag_spec(&self, run: RunView, tag: Seq<char>) -> bool {
        seq_has_tag(run.ancestors, tag)
    }

    open spec fn font_name_spec(&self, run: RunView) -> Option<Seq<char>> {
        first_attr(run.ancestors, "font"@, "face"@)
    }

    open spec fn size_spec(&self, run: RunView) -> Option<Seq<char>> {
        match first_attr(run.ancestors, "font"@, "size"@) {
            Some(v) => if is_number_token(v) {
                Some(v)
            } else {
                None
            },
            None => None,
        }
    }

    open spec fn color_spec(&self, run: RunView) -> Option<Seq<char>> {
        match first_attr(run.ancestors, "font"@, "color"@) {
            Some(v) => Some(resolve_color_token(v)),
            None => None,
        }
    }

    open spec fn is_bold_spec(&self, run: RunView) -> bool {
        seq_has_tag(run.ancestors, "b"@) || seq_has_tag(run.ancestors, "strong"@)
    }

    open spec fn is_italic_spec(&self, run: RunView) -> bool {
        seq_has_tag(run.ancestors, "i"@) || seq_has_tag(run.ancestors, "em"@)
    }

    open spec fn is_underline_spec(&self, run: RunView) -> bool {
        seq_has_tag(run.ancestors, "u"@) || seq_has_tag(run.ancestors, "ins"@)
    }

    open spec fn is_superscript_spec(&self, run: RunView) -> bool {
        seq_has_tag(run.ancestors, "sup"@)
    }

    open spec fn is_subscript_spec(&self, run: RunView) -> bool {
        seq_has_tag(run.ancestors, "sub"@)
    }

    open spec fn is_strikethrough_spec(&self, run: RunView) -> bool {
        seq_has_tag(run.ancestors, "del"@)
    }

    fn is_tag(&self, html_flat_data: &HtmlFlatData, tag: &str) -> (r: bool) {
        let ghost anc = html_flat_data.element.deep_view();
        let mut i: usize = 0;
        while i < html_flat_data.element.len()
            invariant
                i <= html_flat_data.element.len(),
                anc == html_flat_data.element.deep_view(),
                forall|j: int| 0 <= j < i ==> anc[j].name != tag@,
            decreases html_flat_data.element.len() - i,
        {
            if html_flat_data.element[i].has_name(tag) {
                proof {
                    assert(anc[i as int] == html_flat_data.element@[i as int].deep_view());
                }
                return true;
            }
            i = i + 1;
        }
        false
    }

    fn font_name(&self, html_flat_data: &HtmlFlatData) -> (r: Option<String>) {
        find_first_attr(html_flat_data, "font", "face")
    }

    fn size(&self, html_flat_data: &HtmlFlatData) -> (r: Option<String>) {
        match find_first_attr(html_flat_data, "font", "size") {
            Some(v) => {
                if is_numeric_token(v.as_str()) {
                    Some(v)
                } else {
                    None
                }
            },
            None => None,
        }
    }

    fn color(&self, html_flat_data: &HtmlFlatData) -> (r: Option<String>) {
        match find_first_attr(html_flat_data, "font", "color") {
            Some(v) => Some(resolve_color(v.as_str())),
            None => None,
        }
    }

    fn is_bold(&self, html_flat_data: &HtmlFlatData) -> (r: bool) {
        self.is_tag(html_flat_data, "b") || self.is_tag(html_flat_data, "strong")
    }

    fn is_italic(&self, html_flat_data: &HtmlFlatData) -> (r: bool) {
        self.is_tag(html_flat_data, "i") || self.is_tag(html_flat_data, "em")
    }

    fn is_underline(&self, html_flat_data: &HtmlFlatData) -> (r: bool) {
        self.is_tag(html_flat_data, "u") || self.is_tag(html_flat_data, "ins")
    }

    fn is_superscript(&self, html_flat_data: &HtmlFlatData) -> (r: bool) {
        self.is_tag(html_flat_data, "sup")
    }

    fn is_subscript(&self, html_flat_data: &HtmlFlatData) -> (r: bool) {
        self.is_tag(html_flat_data, "sub")
    }

    fn is_strikethrough(&self, html_flat_data: &HtmlFlatData) -> (r: bool) {
        self.is_tag(html_flat_data, "del")
    }
}

} // verus!
