//! The rich-text output model and the builder that combines flat runs with
//! a formatting analysis.
//!
//! A [`RichTextRun`]'s font descriptor sets **only** the facets the policy
//! explicitly produced: a boolean facet that evaluates to false is left
//! unset, not written as an explicit `false`, because downstream
//! style-merging treats "unset" (inherit) and "explicitly false" (override)
//! differently.  String and numeric facets follow the same rule: absence
//! means "inherit".

use vstd::prelude::*;
use crate::analysis::AnalysisMethod;
use crate::flat::{HtmlFlatData, RunView, lemma_seq_deep_push, lemma_vec_deep};

verus! {

/// A font descriptor: every facet independently settable, with "unset"
/// distinguishable from every concrete value.  The size facet carries the
/// validated numeric token rather than a parsed number.
pub struct FontDescriptor {
    pub name: Option<String>,
    pub size: Option<String>,
    pub color: Option<String>,
    pub bold: Option<bool>,
    pub italic: Option<bool>,
    pub underline: Option<bool>,
    pub superscript: Option<bool>,
    pub subscript: Option<bool>,
    pub strikethrough: Option<bool>,
}

/// Specification-level model of a font descriptor.
#[verifier::ext_equal]
pub struct FontView {
    pub name: Option<Seq<char>>,
    pub size: Option<Seq<char>>,
    pub color: Option<Seq<char>>,
    pub bold: Option<bool>,
    pub italic: Option<bool>,
    pub underline: Option<bool>,
    pub superscript: Option<bool>,
    pub subscript: Option<bool>,
    pub strikethrough: Option<bool>,
}

impl DeepView for FontDescriptor {
    type V = FontView;

    open spec fn deep_view(&self) -> FontView {
        FontView {
            name: self.name.deep_view(),
            size: self.size.deep_view(),
            color: self.color.deep_view(),
            bold: self.bold,
            italic: self.italic,
            underline: self.underline,
            superscript: self.superscript,
            subscript: self.subscript,
            strikethrough: self.strikethrough,
        }
    }
}

/// One output run: a span of text with its font descriptor.
pub struct TextElement {
    pub text: String,
    pub run_properties: FontDescriptor,
}

/// Specification-level model of one output run.
#[verifier::ext_equal]
pub struct TextElemView {
    pub text: Seq<char>,
    pub font: FontView,
}

impl DeepView for TextElement {
    type V = TextElemView;

    open spec fn deep_view(&self) -> TextElemView {
        TextElemView { text: self.text@, font: self.run_properties.deep_view() }
    }
}

/// The ordered rich-text run list handed to the document model.
pub struct RichText {
    pub rich_text_elements: Vec<TextElement>,
}

impl DeepView for RichText {
    type V = Seq<TextElemView>;

    open spec fn deep_view(&self) -> Seq<TextElemView> {
        self.rich_text_elements.deep_view()
    }
}

impl RichText {
    /// An empty run list.
    pub fn new() -> (r: Self)
        ensures
            r.deep_view() == Seq::<TextElemView>::empty(),
    {
        let r = RichText { rich_text_elements: Vec::new() };
        proof {
            assert(r.deep_view() =~= Seq::<TextElemView>::empty());
        }
        r
    }

    /// Appends one run at the end of the list.
    pub fn add_rich_text_elements(&mut self, value: TextElement)
        ensures
            final(self).deep_view() == old(self).deep_view().push(value.deep_view()),
    {
        let ghost pre = self.rich_text_elements@;
        proof {
            lemma_vec_deep(self.rich_text_elements);
        }
        self.rich_text_elements.push(value);
        proof {
            lemma_vec_deep(self.rich_text_elements);
            lemma_seq_deep_push(pre, self.rich_text_elements@[pre.len() as int]);
            assert(self.rich_text_elements@ == pre.push(
                self.rich_text_elements@[pre.len() as int],
            ));
        }
    }
}

/// The facets the policy derives for one run: exactly the explicitly
/// produced facets are set; a boolean facet that evaluates to false stays
/// unset.
pub open spec fn facets_of<M: AnalysisMethod>(m: M, run: RunView) -> FontView {
    FontView {
        name: m.font_name_spec(run),
        size: m.size_spec(run),
        color: m.color_spec(run),
        bold: if m.is_bold_spec(run) {
            Some(true)
        } else {
            None
        },
        italic: if m.is_italic_spec(run) {
            Some(true)
        } else {
            None
        },
        underline: if m.is_underline_spec(run) {
            Some(true)
        } else {
            None
        },
        superscript: if m.is_superscript_spec(run) {
            Some(true)
        } else {
            None
        },
        subscript: if m.is_subscript_spec(run) {
            Some(true)
        } else {
            None
        },
        strikethrough: if m.is_strikethrough_spec(run) {
            Some(true)
        } else {
            None
        },
    }
}

/// The rich-text run list built from a flat run list under policy `m`:
/// same cardinality and order, each run's text kept verbatim and its
/// descriptor derived by [`facets_of`].
pub open spec fn rich_of<M: AnalysisMethod>(m: M, runs: Seq<RunView>) -> Seq<TextElemView> {
    Seq::new(runs.len(), |i: int| TextElemView { text: runs[i].text, font: facets_of(m, runs[i]) })
}

/// The builder keeps cardinality, order and text: the output has exactly
/// one run per input run, at the same position, with the input's text
/// verbatim and the facets the policy derives for that run.
pub proof fn lemma_rich_of_shape<M: AnalysisMethod>(m: M, runs: Seq<RunView>, i: int)
    requires
        0 <= i < runs.len(),
    ensures
        rich_of(m, runs).len() == runs.len(),
        rich_of(m, runs)[i].text == runs[i].text,
        rich_of(m, runs)[i].font == facets_of(m, runs[i]),
{
}

/// Builds the ordered rich-text run list from the flat run list: one output
/// run per input run, in order, with exactly the facets the policy
/// produced.
pub fn make_rich_text<M: AnalysisMethod>(html_flat_data_list: &Vec<HtmlFlatData>, method: &M) -> (r:
    RichText)
    ensures
        r.deep_view() == rich_of(*method, html_flat_data_list.deep_view()),
{
    let ghost runs = html_flat_data_list.deep_view();
    let mut result = RichText::new();
    let mut i: usize = 0;
    while i < html_flat_data_list.len()
        invariant
            i <= html_flat_data_list.len(),
            runs == html_flat_data_list.deep_view(),
            result.deep_view() == rich_of(*method, runs).subrange(0, i as int),
        decreases html_flat_data_list.len() - i,
    {
        let html_flat_data = &html_flat_data_list[i];
        proof {
            assert(html_flat_data.deep_view() == runs[i as int]);
        }
        let font_name = method.font_name(html_flat_data);
        let size = method.size(html_flat_data);
        let color = method.color(html_flat_data);
        let is_bold = method.is_bold(html_flat_data);
        let is_italic = method.is_italic(html_flat_data);
        let is_underline = method.is_underline(html_flat_data);
        let is_superscript = method.is_superscript(html_flat_data);
        let is_subscript = method.is_subscript(html_flat_data);
        let is_strikethrough = method.is_strikethrough(html_flat_data);
        let font = FontDescriptor {
            name: font_name,
            size,
            color,
            bold: if is_bold {
                Some(true)
            } else {
                None
            },
            italic: if is_italic {
                Some(true)
            } else {
                None
            },
            underline: if is_underline {
                Some(true)
            } else {
                None
            },
            superscript: if is_superscript {
                Some(true)
            } else {
                None
            },
            subscript: if is_subscript {
                Some(true)
            } else {
                None
            },
            strikethrough: if is_strikethrough {
                Some(true)
            } else {
                None
            },
        };
        let text_element = TextElement { text: html_flat_data.text.clone(), run_properties: font };
        proof {
            assert(text_element.deep_view().font =~= facets_of(*method, runs[i as int]));
            assert(text_element.deep_view() =~= rich_of(*method, runs)[i as int]);
        }
        result.add_rich_text_elements(text_element);
        proof {
            assert(result.deep_view() =~= rich_of(*method, runs).subrange(0, i as int + 1));
        }
        i = i + 1;
    }
    proof {
        assert(rich_of(*method, runs).subrange(0, runs.len() as int) =~= rich_of(*method, runs));
    }
    result
}

} // verus!
