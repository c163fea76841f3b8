use zed_turborepo::label::{label_for_completion, CompletionLabel, LabelSpan};

fn span(text: &str, highlight: &str) -> LabelSpan {
    LabelSpan { text: text.to_string(), highlight: highlight.to_string() }
}

#[test]
fn plain_task_is_one_span() {
    assert_eq!(
        label_for_completion("build"),
        CompletionLabel {
            code: "build".to_string(),
            spans: vec![span("build", "function")],
            filter_end: 5,
        }
    );
}

#[test]
fn package_and_task_are_three_spans() {
    assert_eq!(
        label_for_completion("web#build"),
        CompletionLabel {
            code: "web#build".to_string(),
            spans: vec![span("web", "property"), span("#", "punctuation"), span("build", "function")],
            filter_end: 9,
        }
    );
}

#[test]
fn label_is_split_at_the_first_hash() {
    let shown = label_for_completion("@scope/ui#build#watch");
    assert_eq!(
        shown.spans,
        vec![span("@scope/ui", "property"), span("#", "punctuation"), span("build#watch", "function")]
    );
    assert_eq!(label_for_completion("#").spans, vec![span("", "property"), span("#", "punctuation"), span("", "function")]);
    assert_eq!(label_for_completion("a#").spans, vec![span("a", "property"), span("#", "punctuation"), span("", "function")]);
    assert_eq!(label_for_completion("#b").spans, vec![span("", "property"), span("#", "punctuation"), span("b", "function")]);
}

#[test]
fn filter_range_is_counted_in_bytes() {
    assert_eq!(label_for_completion("").filter_end, 0);
    assert_eq!(label_for_completion("").spans, vec![span("", "function")]);
    let shown = label_for_completion("café#bäck");
    assert_eq!(shown.filter_end, 11);
    assert_eq!(shown.code, "café#bäck");
    assert_eq!(shown.spans[0], span("café", "property"));
    assert_eq!(shown.spans[2], span("bäck", "function"));
}
