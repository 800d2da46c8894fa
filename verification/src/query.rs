//! Query building: converts a dictionary type, an entry count and an optional
//! key-stroke threshold into the quantity, separator and ordering rules that a
//! typing session is configured with.

use vstd::prelude::*;

use crate::dictionary::DictionaryType;

verus! {

/// Key-stroke budget used for word practice when the caller gives no
/// threshold.
pub const DEFAULT_KEY_STROKE_COUNT: usize = 150;

/// How many vocabulary entries a query draws from the entry list.
#[derive(Clone, Copy, Debug, PartialEq, Eq, Structural)]
pub enum VocabularyQuantifier {
    /// Entries are drawn until the given key-stroke count is reached.
    KeyStrokeCount(usize),
    /// Exactly the given number of entries is drawn.
    VocabularyCount(usize),
}

/// What is placed between two consecutive vocabulary entries of the query.
#[derive(Clone, Copy, Debug, PartialEq, Eq, Structural)]
pub enum VocabularySeparator {
    /// A single whitespace between entries.
    WhiteSpace,
    /// Entries follow each other directly.
    NoSeparator,
}

/// The order in which entries are drawn from the entry list.
#[derive(Clone, Copy, Debug, PartialEq, Eq, Structural)]
pub enum VocabularyOrder {
    /// Entries are drawn at random.
    Random,
    /// Entries are drawn in list order.
    InOrder,
}

/// The three rules a typing session is configured with.
#[derive(Clone, Copy, Debug, PartialEq, Eq, Structural)]
pub struct QueryPlan {
    pub quantifier: VocabularyQuantifier,
    pub separator: VocabularySeparator,
    pub order: VocabularyOrder,
}

impl QueryPlan {
    /// A usable plan never asks for a zero quantity.
    pub open spec fn wf(&self) -> bool {
        match self.quantifier {
            VocabularyQuantifier::KeyStrokeCount(n) => n > 0,
            VocabularyQuantifier::VocabularyCount(n) => n > 0,
        }
    }
}

/// Builds the query rules for one typing session.
///
/// Word practice samples a random subset of the entries up to a key-stroke
/// budget (the threshold, or a default budget when absent) and separates the
/// words by whitespace. Sentence practice consumes entries in authored order
/// up to a vocabulary-count budget (the threshold, or all entries when
/// absent) with no separator.
pub fn build_query(
    dictionary_type: DictionaryType,
    entry_count: usize,
    key_stroke_count_threshold: Option<usize>,
) -> (plan: QueryPlan)
    requires
        key_stroke_count_threshold matches Some(t) ==> t > 0,
        dictionary_type is Sentence && key_stroke_count_threshold is None ==> entry_count > 0,
    ensures
        plan.wf(),
        dictionary_type is Word ==> plan == (QueryPlan {
            quantifier: VocabularyQuantifier::KeyStrokeCount(
                match key_stroke_count_threshold {
                    Some(t) => t,
                    None => DEFAULT_KEY_STROKE_COUNT,
                },
            ),
            separator: VocabularySeparator::WhiteSpace,
            order: VocabularyOrder::Random,
        }),
        dictionary_type is Sentence ==> plan == (QueryPlan {
            quantifier: VocabularyQuantifier::VocabularyCount(
                match key_stroke_count_threshold {
                    Some(t) => t,
                    None => entry_count,
                },
            ),
            separator: VocabularySeparator::NoSeparator,
            order: VocabularyOrder::InOrder,
        }),
{
    match dictionary_type {
        DictionaryType::Word => QueryPlan {
            quantifier: VocabularyQuantifier::KeyStrokeCount(
                match key_stroke_count_threshold {
                    Some(t) => t,
                    None => DEFAULT_KEY_STROKE_COUNT,
                },
            ),
            separator: VocabularySeparator::WhiteSpace,
            order: VocabularyOrder::Random,
        },
        DictionaryType::Sentence => QueryPlan {
            quantifier: VocabularyQuantifier::VocabularyCount(
                match key_stroke_count_threshold {
                    Some(t) => t,
                    None => entry_count,
                },
            ),
            separator: VocabularySeparator::NoSeparator,
            order: VocabularyOrder::InOrder,
        },
    }
}

} // verus!
