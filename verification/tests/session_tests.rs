use typing_library::dictionary::DictionaryType;
use typing_library::errors::CoreError;
use typing_library::parser::parse_dictionary_body;
use typing_library::query::build_query;
use typing_library::session::SessionOrchestrator;

fn configured_orchestrator(body: &str) -> SessionOrchestrator {
    let (entries, invalid) = parse_dictionary_body(body);
    assert!(invalid.is_empty());
    let plan = build_query(DictionaryType::Sentence, entries.len(), None);
    let mut orchestrator = SessionOrchestrator::new();
    orchestrator.configure(&entries, &plan).unwrap();
    orchestrator
}

/// Types the two-stroke query "ab" to completion.
fn complete_one_session(orchestrator: &mut SessionOrchestrator, start_ms: u64) {
    orchestrator.start().unwrap();
    let finished = orchestrator.stroke_key("a", start_ms + 100).unwrap();
    assert!(!finished);
    let finished = orchestrator.stroke_key("b", start_ms + 200).unwrap();
    assert!(finished);
}

#[test]
fn result_before_any_completion_fails() {
    let orchestrator = SessionOrchestrator::new();
    let err = orchestrator.get_result().unwrap_err();
    assert!(matches!(err, CoreError::AggregateNotInitialized));
}

#[test]
fn start_before_configure_fails() {
    let mut orchestrator = SessionOrchestrator::new();
    let err = orchestrator.start().unwrap_err();
    assert!(matches!(err, CoreError::SessionStateError));
}

#[test]
fn stroke_before_start_fails() {
    let mut orchestrator = configured_orchestrator("ab:a,b");
    let err = orchestrator.stroke_key("a", 100).unwrap_err();
    assert!(matches!(err, CoreError::SessionStateError));
}

#[test]
fn configure_with_empty_entry_set_fails() {
    let mut orchestrator = SessionOrchestrator::new();
    let entries = Vec::new();
    let plan = build_query(DictionaryType::Word, 0, None);
    let err = orchestrator.configure(&entries, &plan).unwrap_err();
    assert!(matches!(err, CoreError::EmptyQuery));
    // The slot is still unconfigured, so starting keeps failing.
    let err = orchestrator.start().unwrap_err();
    assert!(matches!(err, CoreError::SessionStateError));
}

#[test]
fn entry_with_empty_reading_is_rejected_at_configure() {
    // "a:" parses — the engine's line parser accepts an entry whose single
    // reading is the empty string — but no key stroke can be derived from
    // it, so configuration rejects it.
    let (entries, invalid) = parse_dictionary_body("a:");
    assert!(invalid.is_empty());
    assert_eq!(entries.len(), 1);
    let plan = build_query(DictionaryType::Sentence, entries.len(), None);
    let mut orchestrator = SessionOrchestrator::new();
    let err = orchestrator.configure(&entries, &plan).unwrap_err();
    assert!(matches!(err, CoreError::UntypableEntry));
}

#[test]
fn stroke_dated_before_an_accepted_stroke_fails() {
    let mut orchestrator = configured_orchestrator("ab:a,b");
    orchestrator.start().unwrap();
    let finished = orchestrator.stroke_key("a", 500).unwrap();
    assert!(!finished);
    let err = orchestrator.stroke_key("b", 400).unwrap_err();
    assert!(matches!(err, CoreError::InvalidElapsedTime));
    // At or after the accepted stroke's time the session continues.
    let finished = orchestrator.stroke_key("b", 500).unwrap();
    assert!(finished);
}

#[test]
fn reconfigure_before_finish_fails() {
    let mut orchestrator = configured_orchestrator("ab:a,b");
    let (entries, _) = parse_dictionary_body("cd:c,d");
    let plan = build_query(DictionaryType::Sentence, entries.len(), None);
    let err = orchestrator.configure(&entries, &plan).unwrap_err();
    assert!(matches!(err, CoreError::SessionStateError));
}

#[test]
fn display_before_start_fails() {
    let orchestrator = SessionOrchestrator::new();
    let err = orchestrator.display_information().unwrap_err();
    assert!(matches!(err, CoreError::SessionStateError));
}

#[test]
fn multi_character_stroke_fails() {
    let mut orchestrator = configured_orchestrator("ab:a,b");
    orchestrator.start().unwrap();
    let err = orchestrator.stroke_key("ab", 100).unwrap_err();
    assert!(matches!(err, CoreError::InvalidKeyStroke));
    let err = orchestrator.stroke_key("", 100).unwrap_err();
    assert!(matches!(err, CoreError::InvalidKeyStroke));
}

#[test]
fn non_displayable_stroke_fails() {
    let mut orchestrator = configured_orchestrator("ab:a,b");
    orchestrator.start().unwrap();
    let err = orchestrator.stroke_key("\u{3042}", 100).unwrap_err();
    assert!(matches!(err, CoreError::InvalidKeyStroke));
}

#[test]
fn first_completed_session_becomes_the_aggregate() {
    let mut orchestrator = configured_orchestrator("ab:a,b");
    complete_one_session(&mut orchestrator, 0);
    let results = orchestrator.get_result().unwrap();
    assert_eq!(results.this_result, results.aggregated_result);
    assert_eq!(results.this_result.summary().key_stroke().whole_count(), 2);
}

#[test]
fn aggregate_accumulates_across_sessions() {
    let mut orchestrator = configured_orchestrator("ab:a,b");
    complete_one_session(&mut orchestrator, 0);

    // A Finished slot accepts a new configuration; the aggregate survives.
    let (entries, _) = parse_dictionary_body("ab:a,b");
    let plan = build_query(DictionaryType::Sentence, entries.len(), None);
    orchestrator.configure(&entries, &plan).unwrap();
    complete_one_session(&mut orchestrator, 1000);

    let results = orchestrator.get_result().unwrap();
    assert_eq!(results.this_result.summary().key_stroke().whole_count(), 2);
    assert_eq!(results.aggregated_result.summary().key_stroke().whole_count(), 4);
}

#[test]
fn display_information_is_readable_while_running() {
    let mut orchestrator = configured_orchestrator("ab:a,b");
    orchestrator.start().unwrap();
    let display = orchestrator.display_information().unwrap();
    assert_eq!(display.key_stroke_info().current_cursor_position(), 0);
    let finished = orchestrator.stroke_key("a", 100).unwrap();
    assert!(!finished);
    let display = orchestrator.display_information().unwrap();
    assert_eq!(display.key_stroke_info().current_cursor_position(), 1);
}
