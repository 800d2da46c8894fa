use typing_library::dictionary::DictionaryType;
use typing_library::query::{
    build_query, VocabularyOrder, VocabularyQuantifier, VocabularySeparator,
};

#[test]
fn word_query_defaults_to_150_key_strokes() {
    let plan = build_query(DictionaryType::Word, 42, None);
    assert_eq!(plan.quantifier, VocabularyQuantifier::KeyStrokeCount(150));
    assert_eq!(plan.separator, VocabularySeparator::WhiteSpace);
    assert_eq!(plan.order, VocabularyOrder::Random);
}

#[test]
fn sentence_query_defaults_to_entry_count() {
    let plan = build_query(DictionaryType::Sentence, 42, None);
    assert_eq!(plan.quantifier, VocabularyQuantifier::VocabularyCount(42));
    assert_eq!(plan.separator, VocabularySeparator::NoSeparator);
    assert_eq!(plan.order, VocabularyOrder::InOrder);
}

#[test]
fn word_query_uses_the_given_threshold() {
    let plan = build_query(DictionaryType::Word, 42, Some(300));
    assert_eq!(plan.quantifier, VocabularyQuantifier::KeyStrokeCount(300));
}

#[test]
fn sentence_query_uses_the_given_threshold() {
    let plan = build_query(DictionaryType::Sentence, 42, Some(7));
    assert_eq!(plan.quantifier, VocabularyQuantifier::VocabularyCount(7));
}
