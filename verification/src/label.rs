//! How a completion is shown: a task, or a package and a task joined by `#`,
//! each part in its own colour.

use vstd::prelude::*;
use vstd::std_specs::iter::IteratorSpec;
use crate::text::push_char;

verus! {

/// A piece of a label and the name of the highlight it is shown in.
#[derive(Debug, PartialEq, Eq)]
pub struct LabelSpan {
    pub text: String,
    pub highlight: String,
}

/// [`LabelSpan`] as a mathematical value.
pub struct LabelSpanView {
    pub text: Seq<char>,
    pub highlight: Seq<char>,
}

impl DeepView for LabelSpan {
    type V = LabelSpanView;

    open spec fn deep_view(&self) -> LabelSpanView {
        LabelSpanView { text: self.text@, highlight: self.highlight@ }
    }
}

/// The label of a completion: the text it stands for, the pieces it is shown
/// as, and the end of the range of the text, counted in bytes from its
/// start, that typing filters on.
#[derive(Debug, PartialEq, Eq)]
pub struct CompletionLabel {
    pub code: String,
    pub spans: Vec<LabelSpan>,
    pub filter_end: usize,
}

/// The place of the first `#` in `label` from place `from` on.
pub open spec fn first_hash(label: Seq<char>, from: int) -> Option<int>
    decreases label.len() - from,
{
    if from < 0 || from >= label.len() {
        None
    } else if label[from] == '#' {
        Some(from)
    } else {
        first_hash(label, from + 1)
    }
}

/// The pieces that a label is shown as. A label with a `#` is a package, the
/// `#`, and a task: what stands before the first `#` is the package. A label
/// without one is a task.
pub open spec fn label_spans(label: Seq<char>) -> Seq<LabelSpanView> {
    match first_hash(label, 0) {
        Some(at) => seq![
            LabelSpanView { text: label.take(at), highlight: "property"@ },
            LabelSpanView { text: "#"@, highlight: "punctuation"@ },
            LabelSpanView { text: label.skip(at + 1), highlight: "function"@ },
        ],
        None => seq![LabelSpanView { text: label, highlight: "function"@ }],
    }
}

/// A piece of a label.
fn span(text: String, highlight: &str) -> (span: LabelSpan)
    ensures
        span.deep_view() == (LabelSpanView { text: text@, highlight: highlight@ }),
{
    LabelSpan { text, highlight: String::from_str(highlight) }
}

/// The label for a completion whose text is `label`.
pub fn label_for_completion(label: &str) -> (shown: CompletionLabel)
    ensures
        shown.code@ == label@,
        shown.spans.deep_view() == label_spans(label@),
        shown.filter_end == label.len(),
{
    let ghost s = label@;
    let mut package = String::new();
    let mut task = String::new();
    let mut found = false;
    let ghost mut at: int = 0;
    let ghost mut i: int = 0;
    let mut chars = label.chars();
    loop
        invariant
            s == label@,
            0 <= i <= s.len(),
            chars.obeys_prophetic_iter_laws(),
            chars.remaining() == s.skip(i),
            !found ==> first_hash(s, 0) == first_hash(s, i) && package@ == s.take(i) && task@
                == Seq::<char>::empty(),
            found ==> 0 <= at < i && first_hash(s, 0) == Some(at) && package@ == s.take(at)
                && task@ == s.subrange(at + 1, i),
        ensures
            i == s.len(),
        decreases s.len() - i,
    {
        match chars.next() {
            None => {
                assert(s.skip(i).len() == 0);
                break ;
            },
            Some(c) => {
                assert(c == s[i]);
                assert(s.skip(i).drop_first() =~= s.skip(i + 1));
                if found {
                    push_char(&mut task, c);
                    assert(task@ =~= s.subrange(at + 1, i + 1));
                } else if c == '#' {
                    found = true;
                    proof {
                        at = i;
                        assert(task@ =~= s.subrange(at + 1, i + 1));
                    }
                } else {
                    push_char(&mut package, c);
                    assert(package@ =~= s.take(i + 1));
                }
                proof {
                    i = i + 1;
                }
            },
        }
    }
    assert(i == s.len());
    let mut spans: Vec<LabelSpan> = Vec::new();
    if found {
        assert(task@ =~= s.skip(at + 1));
        spans.push(span(package, "property"));
        spans.push(span(String::from_str("#"), "punctuation"));
        spans.push(span(task, "function"));
        assert(spans.deep_view() =~= label_spans(s));
    } else {
        assert(package@ =~= s);
        spans.push(span(package, "function"));
        assert(spans.deep_view() =~= label_spans(s));
    }
    CompletionLabel { code: String::from_str(label), spans, filter_end: label.len() }
}

} // verus!
