use typing_library::dictionary::{
    materialize, Dictionary, DictionaryOrigin, DictionaryType, FetchFailure, FetchOutcome,
};
use typing_library::errors::CoreError;
use typing_library::library::{Library, QueryRequestFromUI};
use typing_library::parser::parse_dictionary_body;

fn ok_outcome(name: &str, dictionary_type: DictionaryType, body: &str) -> FetchOutcome {
    FetchOutcome { name: name.to_string(), dictionary_type, body: Ok(body.to_string()) }
}

fn failed_outcome(name: &str, dictionary_type: DictionaryType) -> FetchOutcome {
    FetchOutcome {
        name: name.to_string(),
        dictionary_type,
        body: Err(FetchFailure::Transport),
    }
}

#[test]
fn one_failing_fetch_keeps_the_others() {
    // One failure among three fetches: the other two dictionaries are
    // materialized and partitioned into their buckets.
    let outcomes = vec![
        ok_outcome("animals", DictionaryType::Word, "ab:a,b"),
        failed_outcome("broken", DictionaryType::Word),
        ok_outcome("phrases", DictionaryType::Sentence, "cd:c,d\nef:e,f"),
    ];
    let (word, sentence) = materialize(&outcomes);
    assert_eq!(word.len(), 1);
    assert_eq!(word[0].name, "animals");
    assert_eq!(word[0].dictionary_type, DictionaryType::Word);
    assert_eq!(word[0].origin, DictionaryOrigin::Builtin);
    assert_eq!(word[0].vocabulary_entries.len(), 1);
    assert_eq!(sentence.len(), 1);
    assert_eq!(sentence[0].name, "phrases");
    assert_eq!(sentence[0].vocabulary_entries.len(), 2);
}

#[test]
fn decode_failures_are_skipped_like_transport_failures() {
    let outcomes = vec![
        FetchOutcome {
            name: "broken".to_string(),
            dictionary_type: DictionaryType::Sentence,
            body: Err(FetchFailure::Decode),
        },
        ok_outcome("phrases", DictionaryType::Sentence, "cd:c,d"),
    ];
    let (word, sentence) = materialize(&outcomes);
    assert_eq!(word.len(), 0);
    assert_eq!(sentence.len(), 1);
    assert_eq!(sentence[0].name, "phrases");
}

#[test]
fn later_outcome_wins_on_same_key() {
    let outcomes = vec![
        ok_outcome("animals", DictionaryType::Word, "ab:a,b"),
        ok_outcome("animals", DictionaryType::Word, "cd:c,d\nef:e,f"),
    ];
    let (word, sentence) = materialize(&outcomes);
    assert_eq!(word.len(), 1);
    assert_eq!(word[0].vocabulary_entries.len(), 2);
    assert_eq!(sentence.len(), 0);
}

#[test]
fn load_replaces_previous_contents() {
    let mut library = Library::new();
    library.load(&vec![ok_outcome("animals", DictionaryType::Word, "ab:a,b")]);
    let catalog = library.construct_dictionary_catalog();
    assert_eq!(catalog.word.len(), 1);
    assert_eq!(catalog.sentence.len(), 0);

    library.load(&vec![ok_outcome("phrases", DictionaryType::Sentence, "cd:c,d")]);
    let catalog = library.construct_dictionary_catalog();
    assert_eq!(catalog.word.len(), 0);
    assert_eq!(catalog.sentence.len(), 1);
    assert_eq!(catalog.sentence[0].name, "phrases");
}

#[test]
fn catalog_reports_metadata() {
    let mut library = Library::new();
    library.load(&vec![
        ok_outcome("animals", DictionaryType::Word, "ab:a,b\nbad line\ncd:c,d"),
    ]);
    let catalog = library.construct_dictionary_catalog();
    assert_eq!(catalog.word.len(), 1);
    let info = &catalog.word[0];
    assert_eq!(info.name, "animals");
    assert_eq!(info.dictionary_type, DictionaryType::Word);
    assert_eq!(info.origin, DictionaryOrigin::Builtin);
    assert_eq!(info.invalid_line_numbers, vec![2]);
    assert_eq!(info.valid_vocabulary_count, 2);
}

#[test]
fn dictionary_info_preserves_all_but_entries() {
    let d = Dictionary::from_body(
        "animals".to_string(),
        DictionaryType::Word,
        DictionaryOrigin::UserDefined,
        "ab:a,b\n \ncd:c,d",
    );
    let info = d.construct_dictionary_info();
    assert_eq!(info.name, d.name);
    assert_eq!(info.dictionary_type, d.dictionary_type);
    assert_eq!(info.origin, d.origin);
    assert_eq!(info.invalid_line_numbers, d.invalid_line_numbers);
    assert_eq!(info.valid_vocabulary_count, d.vocabulary_entries.len());
}

#[test]
fn selection_concatenates_in_selection_order() {
    // Dictionaries are loaded in one order and selected in another: the
    // result follows the selection order, each dictionary's entries in
    // their own order.
    let mut library = Library::new();
    library.load(&vec![
        ok_outcome("second", DictionaryType::Word, "ef:e,f"),
        ok_outcome("first", DictionaryType::Word, "ab:a,b\ncd:c,d"),
    ]);
    let request = QueryRequestFromUI::new(
        DictionaryType::Word,
        vec![
            (DictionaryOrigin::Builtin, "first".to_string()),
            (DictionaryOrigin::Builtin, "second".to_string()),
        ],
        None,
    );
    let entries = library.construct_vocabulary_entries_for_request(&request).unwrap();
    let (expected_first, _) = parse_dictionary_body("ab:a,b\ncd:c,d");
    let (expected_second, _) = parse_dictionary_body("ef:e,f");
    let expected: Vec<_> =
        expected_first.into_iter().chain(expected_second.into_iter()).collect();
    assert_eq!(entries, expected);
}

#[test]
fn unknown_selection_fails_with_dictionary_not_found() {
    let mut library = Library::new();
    library.load(&vec![ok_outcome("animals", DictionaryType::Word, "ab:a,b")]);
    let request = QueryRequestFromUI::new(
        DictionaryType::Sentence,
        vec![(DictionaryOrigin::Builtin, "animals".to_string())],
        None,
    );
    let err = library.construct_vocabulary_entries_for_request(&request).unwrap_err();
    assert!(matches!(err, CoreError::DictionaryNotFound));
}

#[test]
fn request_getters_return_the_fields() {
    let request = QueryRequestFromUI::new(
        DictionaryType::Word,
        vec![(DictionaryOrigin::Builtin, "animals".to_string())],
        Some(200),
    );
    assert_eq!(request.dictionary_type(), DictionaryType::Word);
    assert_eq!(
        request.used_dictionaries(),
        &vec![(DictionaryOrigin::Builtin, "animals".to_string())]
    );
    assert_eq!(request.key_stroke_count_threshold(), Some(200));
}
