use vecx::dataset::{DatasetSpecificProcessing, Example};

#[test]
fn extract_final_answer_round_trips() {
    let proc = DatasetSpecificProcessing {};
    let wrapped = "reason <ANS_START>42<ANS_END>";
    assert_eq!(proc.extract_final_answer(wrapped), "42");

    let wrapped2 = format!("reason <ANS_START>{}<ANS_END>", "the moon");
    assert_eq!(proc.extract_final_answer(&wrapped2), "the moon");
}

#[test]
fn extract_final_answer_without_markers_returns_input() {
    let proc = DatasetSpecificProcessing {};
    assert_eq!(proc.extract_final_answer("no markers here"), "no markers here");
    assert_eq!(proc.extract_final_answer("<ANS_START>unclosed"), "<ANS_START>unclosed");
}

#[test]
fn extract_final_answer_takes_first_pair() {
    let proc = DatasetSpecificProcessing {};
    let two = "<ANS_START>first<ANS_END> and <ANS_START>second<ANS_END>";
    assert_eq!(proc.extract_final_answer(two), "first");
}

#[test]
fn normalize_prediction_applies_the_pipeline() {
    let proc = DatasetSpecificProcessing {};
    assert_eq!(
        proc.normalize_prediction("  Hello, World. And more\nsecond line", true),
        "hello world"
    );
    assert_eq!(proc.normalize_prediction("well-known", false), "well known");
    assert_eq!(
        proc.normalize_prediction("Sentence 1: a and b", false),
        "a b"
    );
}

#[test]
fn normalize_prediction_is_idempotent_on_clean_output() {
    let proc = DatasetSpecificProcessing {};
    for (input, lowercase) in [
        ("  Hello, World. And more\nsecond line", true),
        ("well-known facts", false),
        ("Sentence 1: alpha beta.", true),
        ("  plain   text  ", false),
    ] {
        let once = proc.normalize_prediction(input, lowercase);
        let twice = proc.normalize_prediction(&once, lowercase);
        assert_eq!(twice, once);
    }
}

#[test]
fn assess_answer_is_case_insensitive() {
    let proc = DatasetSpecificProcessing {};
    let (ok, predicted) = proc.assess_answer("thinking <ANS_START>Paris<ANS_END>", "paris");
    assert!(ok);
    assert_eq!(predicted, "Paris");

    let (bad, predicted2) = proc.assess_answer("thinking <ANS_START>Lyon<ANS_END>", "paris");
    assert!(!bad);
    assert_eq!(predicted2, "Lyon");
}

#[test]
fn collate_preserves_question_order() {
    let examples = vec![
        Example::new("first question".to_string(), "a1".to_string(), None),
        Example::new(
            "second question".to_string(),
            "a2".to_string(),
            Some("because <ANS_START>a2<ANS_END>".to_string()),
        ),
    ];
    let out = DatasetSpecificProcessing::collate_to_str(
        &examples,
        "[Question] {question}\n[Answer] {answer}\n",
    );
    assert_eq!(
        out,
        "[Question] first question\n[Answer] a1\n[Question] second question\n[Answer] because <ANS_START>a2<ANS_END>\n"
    );
    let p1 = out.find("first question").unwrap();
    let p2 = out.find("second question").unwrap();
    assert!(p1 < p2);
}
