use schema_wizard::fields::{FieldDescriptor, FieldKind, RecordChoice, tokenizer_name};
use schema_wizard::wizard::{PromptStep, Wizard, run_wizard};

fn script(lines: &[&str]) -> Vec<String> {
    lines.iter().map(|l| l.to_string()).collect()
}

fn run(lines: &[&str]) -> Option<Vec<FieldDescriptor>> {
    run_wizard(&script(lines))
}

#[test]
fn richest_text_field() {
    // name, type, stored, indexed, tokenized, frequencies, positions, add another
    let fields = run(&["title", "T", "Y", "Y", "Y", "Y", "Y", "N"]).unwrap();
    assert_eq!(fields.len(), 1);
    let f = &fields[0];
    assert_eq!(f.name, "title");
    assert!(f.stored);
    assert!(f.indexed);
    assert_eq!(
        f.kind,
        FieldKind::Text { tokenized: true, frequencies: true, positions: true }
    );
    assert_eq!(f.record_choice(), Some(RecordChoice::WithFreqsAndPositions));
    assert_eq!(f.tokenizer(), Some("CANG_JIE"));
    assert_eq!(tokenizer_name(), "CANG_JIE");
}

#[test]
fn fast_unstored_unindexed_integer_field() {
    // name, type, stored, fast, indexed, add another
    let fields = run(&["count", "I", "N", "Y", "N", "N"]).unwrap();
    assert_eq!(fields.len(), 1);
    let f = &fields[0];
    assert_eq!(f.name, "count");
    assert!(!f.stored);
    assert!(!f.indexed);
    assert_eq!(f.kind, FieldKind::UnsignedInteger { fast: true });
    assert_eq!(f.record_choice(), None);
    assert_eq!(f.tokenizer(), None);
}

#[test]
fn declining_tokenized_keeps_basic_indexing() {
    let fields = run(&["body", "T", "N", "Y", "N", "N"]).unwrap();
    assert_eq!(fields.len(), 1);
    let f = &fields[0];
    assert!(!f.stored);
    assert!(f.indexed);
    assert_eq!(
        f.kind,
        FieldKind::Text { tokenized: false, frequencies: false, positions: false }
    );
    assert_eq!(f.record_choice(), Some(RecordChoice::Basic));
    assert_eq!(f.tokenizer(), Some("CANG_JIE"));
}

#[test]
fn declining_positions_keeps_frequencies_only() {
    let fields = run(&["body", "T", "Y", "Y", "Y", "Y", "N", "N"]).unwrap();
    let f = &fields[0];
    assert!(f.indexed);
    assert_eq!(
        f.kind,
        FieldKind::Text { tokenized: true, frequencies: true, positions: false }
    );
    assert_eq!(f.record_choice(), Some(RecordChoice::WithFreqs));
}

#[test]
fn declining_frequencies_stops_the_chain() {
    let fields = run(&["body", "T", "Y", "Y", "Y", "N", "N"]).unwrap();
    let f = &fields[0];
    assert_eq!(
        f.kind,
        FieldKind::Text { tokenized: true, frequencies: false, positions: false }
    );
    assert_eq!(f.record_choice(), Some(RecordChoice::Basic));
}

#[test]
fn unindexed_text_field_has_no_indexing() {
    let fields = run(&["raw", "T", "Y", "N", "N"]).unwrap();
    let f = &fields[0];
    assert!(f.stored);
    assert!(!f.indexed);
    assert_eq!(f.record_choice(), None);
    assert_eq!(f.tokenizer(), None);
}

#[test]
fn declining_add_another_ends_with_one_field() {
    let fields = run(&["only", "I", "Y", "N", "Y", "N"]).unwrap();
    assert_eq!(fields.len(), 1);
    assert_eq!(fields[0].name, "only");
    assert!(fields[0].stored);
    assert!(fields[0].indexed);
    assert_eq!(fields[0].kind, FieldKind::UnsignedInteger { fast: false });
}

#[test]
fn fields_accumulate_in_order() {
    let fields = run(&[
        "title", "T", "Y", "Y", "Y", "Y", "Y", "Y", // first field, add another
        "count", "I", "N", "Y", "N", "N", // second field, stop
    ])
    .unwrap();
    assert_eq!(fields.len(), 2);
    assert_eq!(fields[0].name, "title");
    assert_eq!(fields[1].name, "count");
}

#[test]
fn invalid_answers_repeat_the_same_question() {
    let with_retries = run(&[
        "bad name!", "title", // name rejected once, then accepted
        "X", "t", // type rejected once, then accepted (lower case)
        "maybe", "y", // stored rejected once, then accepted
        "n", // not indexed
        "no", "N", // add-another rejected once, then declined
    ])
    .unwrap();
    let clean = run(&["title", "T", "Y", "N", "N"]).unwrap();
    assert_eq!(with_retries.len(), 1);
    assert_eq!(with_retries[0].name, clean[0].name);
    assert_eq!(with_retries[0].stored, clean[0].stored);
    assert_eq!(with_retries[0].indexed, clean[0].indexed);
    assert_eq!(with_retries[0].kind, clean[0].kind);
}

#[test]
fn exhausted_script_returns_none() {
    assert!(run(&[]).is_none());
    assert!(run(&["title"]).is_none());
    assert!(run(&["title", "T", "Y", "Y", "Y", "Y", "Y"]).is_none());
    // A script whose last answer asks for another field is not finished.
    assert!(run(&["title", "T", "Y", "N", "Y"]).is_none());
}

#[test]
fn step_reports_errors_and_stays_on_the_same_question() {
    let mut w = Wizard::new();
    assert!(!w.is_finished());
    assert_eq!(w.prompt_text(), "New field name ");
    let e = w.step("not a name").unwrap_err();
    assert_eq!(e, "Field name must match the pattern [_a-zA-Z0-9]+");
    assert_eq!(w.prompt_text(), "New field name ");
    w.step("title").unwrap();
    assert_eq!(w.prompt_text(), "Text or unsigned 32-bit integer (T/I)");
    let e = w.step("q").unwrap_err();
    assert_eq!(e, "Invalid input. Options are (T/I)");
    w.step("T").unwrap();
    assert_eq!(w.prompt_text(), "Should the field be stored (Y/N)");
    let e = w.step("perhaps").unwrap_err();
    assert_eq!(e, "Invalid input. Options are (Y/N)");
    w.step("Y").unwrap();
    assert_eq!(w.prompt_text(), "Should the field be indexed (Y/N)");
    w.step("Y").unwrap();
    assert_eq!(w.prompt_text(), "Should the term be tokenized? (Y/N)");
    w.step("Y").unwrap();
    assert_eq!(
        w.prompt_text(),
        "Should the term frequencies (per doc) be in the index (Y/N)"
    );
    w.step("Y").unwrap();
    assert_eq!(
        w.prompt_text(),
        "Should the term positions (per doc) be in the index (Y/N)"
    );
    w.step("Y").unwrap();
    assert_eq!(w.prompt_text(), "Add another field (Y/N)");
    w.step("N").unwrap();
    assert!(w.is_finished());
    assert_eq!(w.fields.len(), 1);
}

#[test]
fn integer_questions_are_asked_in_order() {
    let mut w = Wizard::new();
    w.step("count").unwrap();
    w.step("i").unwrap();
    assert_eq!(w.prompt_text(), "Should the field be stored (Y/N)");
    w.step("n").unwrap();
    assert_eq!(w.prompt_text(), "Should the field be fast (Y/N)");
    w.step("y").unwrap();
    assert_eq!(w.prompt_text(), "Should the field be indexed (Y/N)");
    w.step("n").unwrap();
    assert!(matches!(w.state, PromptStep::AddAnother));
    w.step("N").unwrap();
    assert!(w.is_finished());
}
