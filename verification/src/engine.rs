//! Trusted boundary to the external typing engine.
//!
//! The engine owns character matching, query construction and statistics;
//! this crate only sequences calls to it. Every item here either declares an
//! engine type so that verified code can carry its values, or wraps one
//! engine call behind a contract that states no more than the engine's own
//! source and documentation show.

use vstd::prelude::*;

use crate::query::{QueryPlan, VocabularyOrder, VocabularyQuantifier, VocabularySeparator};
use std::num::NonZeroUsize;
use std::time::Duration;
use typing_engine::VocabularyOrder as EngineOrder;
use typing_engine::VocabularyQuantifier as EngineQuantifier;
use typing_engine::VocabularySeparator as EngineSeparator;

verus! {

#[verifier::external_type_specification]
#[verifier::external_body]
pub struct ExTypingEngine(typing_engine::TypingEngine);

#[verifier::external_type_specification]
#[verifier::external_body]
pub struct ExVocabularyEntry(typing_engine::VocabularyEntry);

#[verifier::external_type_specification]
#[verifier::external_body]
pub struct ExTypingResult(typing_engine::TypingResult);

#[verifier::external_type_specification]
#[verifier::external_body]
pub struct ExTypingEngineError(typing_engine::TypingEngineError);

#[verifier::external_type_specification]
#[verifier::external_body]
pub struct ExDisplayInfo(typing_engine::DisplayInfo);

#[verifier::external_type_specification]
#[verifier::external_body]
pub struct ExKeyStrokeChar(typing_engine::KeyStrokeChar);

/// Relies on the derived `Clone` of `typing_engine::VocabularyEntry`: a clone
/// equals the original.
pub assume_specification[ <typing_engine::VocabularyEntry as Clone>::clone ](
    e: &typing_engine::VocabularyEntry,
) -> (r: typing_engine::VocabularyEntry)
    ensures
        r == *e,
;

/// Relies on the derived `Clone` of `typing_engine::TypingResult`: a clone
/// equals the original.
pub assume_specification[ <typing_engine::TypingResult as Clone>::clone ](
    t: &typing_engine::TypingResult,
) -> (r: typing_engine::TypingResult)
    ensures
        r == *t,
;

/// What `typing_engine::parse_vocabulary_entry` returns for a line: the
/// parse depends on the line's characters alone, and the entry it produces
/// is opaque to this crate.
pub uninterp spec fn parse_result(line: Seq<char>) -> Option<typing_engine::VocabularyEntry>;

/// Relies on `typing_engine::parse_vocabulary_entry`: parsing is a pure
/// function of the line's characters; the error detail is dropped, as only
/// success or failure matters to the dictionary parser.
#[verifier::external_body]
pub(crate) fn parse_line(line: &Vec<char>) -> (r: Option<typing_engine::VocabularyEntry>)
    ensures
        r == parse_result(line@),
{
    let s: String = line.iter().collect();
    typing_engine::parse_vocabulary_entry(&s).ok()
}

/// Relies on `TryFrom<char> for typing_engine::KeyStrokeChar`: exactly the
/// displayable ASCII characters (space through tilde) are accepted.
#[verifier::external_body]
pub(crate) fn key_stroke_char_of(c: char) -> (r: Option<typing_engine::KeyStrokeChar>)
    ensures
        r is Some <==> (0x20 <= c as u32 && c as u32 <= 0x7e),
{
    typing_engine::KeyStrokeChar::try_from(c).ok()
}

/// Whether the engine can type this entry: its reading — the concatenation
/// of its spell elements' strings — is nonempty, so query construction
/// derives at least one chunk from it. A line such as `"a:"` parses to an
/// entry whose single reading is the empty string; handing such an entry to
/// the engine's query builder aborts it, so these entries are screened out
/// before configuration. A function of the entry value alone.
pub uninterp spec fn entry_typable(e: typing_engine::VocabularyEntry) -> bool;

/// Relies on `typing_engine::VocabularyEntry::spells`: the entry's reading
/// is the concatenation of its spell elements' strings, so it is nonempty
/// exactly when some element's string is nonempty.
#[verifier::external_body]
pub(crate) fn is_entry_typable(entry: &typing_engine::VocabularyEntry) -> (r: bool)
    ensures
        r == entry_typable(*entry),
{
    entry.spells().iter().any(|element| match element {
        typing_engine::VocabularySpellElement::Normal(s) => !s.is_empty(),
        typing_engine::VocabularySpellElement::Compound((s, _)) => !s.is_empty(),
    })
}

/// The lifecycle phase of an engine value, as the wrappers below produce
/// and evolve it. Together with `stroke_time_floor` this is the trusted
/// model under which the session operations can promise success.
#[derive(Clone, Copy, Debug, PartialEq, Eq, Structural)]
pub enum EnginePhase {
    /// Fresh from `new`: no typing target exists yet.
    Fresh,
    /// A query was configured and its target activated, but not started.
    Ready,
    /// The target is started and not yet finished.
    Started,
    /// The target is finished.
    Done,
}

/// Which lifecycle phase an engine value is in.
pub uninterp spec fn engine_phase(e: typing_engine::TypingEngine) -> EnginePhase;

/// The elapsed milliseconds of the engine's last correctly hit key stroke
/// (zero before any): the engine subtracts this from each correct stroke's
/// elapsed time, so only strokes at or after it are safe to feed.
pub uninterp spec fn stroke_time_floor(e: typing_engine::TypingEngine) -> nat;

/// Relies on `typing_engine::TypingEngine::new`: constructs an engine with no
/// target configured.
#[verifier::external_body]
pub(crate) fn engine_new() -> (r: typing_engine::TypingEngine)
    ensures
        engine_phase(r) is Fresh,
{
    typing_engine::TypingEngine::new()
}

/// Relies on `typing_engine::TypingEngine::init` and
/// `typing_engine::QueryRequest::new`: resets the engine's targets and
/// statistics, builds the query eagerly and activates its target without
/// starting it. The builder draws at least one entry and derives a nonzero
/// chunk count from each drawn entry, so a zero quantity, an empty entry
/// list or an entry with an empty reading would abort it — hence the
/// preconditions. The fresh target's last-correct-stroke time is zero.
#[allow(deprecated)]
#[verifier::external_body]
pub(crate) fn engine_init(
    engine: &mut typing_engine::TypingEngine,
    entries: &Vec<typing_engine::VocabularyEntry>,
    plan: &QueryPlan,
)
    requires
        plan.wf(),
        entries@.len() > 0,
        forall|i: int| 0 <= i < entries@.len() ==> #[trigger] entry_typable(entries@[i]),
    ensures
        engine_phase(*final(engine)) is Ready,
        stroke_time_floor(*final(engine)) == 0,
{
    let refs: Vec<&typing_engine::VocabularyEntry> = entries.iter().collect();
    let quantifier = match plan.quantifier {
        VocabularyQuantifier::KeyStrokeCount(n) => EngineQuantifier::KeyStroke(NonZeroUsize::new(n).unwrap()),
        VocabularyQuantifier::VocabularyCount(n) => EngineQuantifier::Vocabulary(NonZeroUsize::new(n).unwrap()),
    };
    let separator = match plan.separator {
        VocabularySeparator::WhiteSpace => EngineSeparator::WhiteSpace,
        VocabularySeparator::NoSeparator => EngineSeparator::None,
    };
    let order = match plan.order {
        VocabularyOrder::Random => EngineOrder::Random,
        VocabularyOrder::InOrder => EngineOrder::InOrder,
    };
    engine.init(typing_engine::QueryRequest::new(&refs, quantifier, separator, order));
}

/// Relies on `typing_engine::TypingEngine::start`: it errors only when no
/// target was configured or the target was already started, so from a
/// configured, unstarted engine it succeeds and starts the target; it does
/// not touch the recorded stroke times.
#[allow(deprecated)]
#[verifier::external_body]
pub(crate) fn engine_start(
    engine: &mut typing_engine::TypingEngine,
) -> (r: Result<(), typing_engine::TypingEngineError>)
    ensures
        engine_phase(*old(engine)) is Ready ==> r is Ok && engine_phase(*final(engine)) is Started
            && stroke_time_floor(*final(engine)) == stroke_time_floor(*old(engine)),
{
    engine.start()
}

/// Relies on `typing_engine::TypingEngine::stroke_key_with_elapsed_time`:
/// feeds one key stroke with the time elapsed since the session started.
/// On a started, unfinished target every key stroke is processed and
/// `Ok(finished)` reports whether it completed the query. The engine
/// subtracts the last correct stroke's elapsed time from the new stroke's,
/// which would abort on a stroke dated earlier — hence the time
/// precondition; the recorded time never exceeds the stroke's.
#[verifier::external_body]
pub(crate) fn engine_stroke_key(
    engine: &mut typing_engine::TypingEngine,
    key: typing_engine::KeyStrokeChar,
    elapsed_ms: u64,
) -> (r: Result<bool, typing_engine::TypingEngineError>)
    requires
        engine_phase(*old(engine)) is Started,
        stroke_time_floor(*old(engine)) <= elapsed_ms as nat,
    ensures
        r is Ok,
        stroke_time_floor(*final(engine)) <= elapsed_ms as nat,
        r matches Ok(finished) && !finished ==> engine_phase(*final(engine)) is Started,
        r matches Ok(finished) && finished ==> engine_phase(*final(engine)) is Done,
{
    engine.stroke_key_with_elapsed_time(key, Duration::from_millis(elapsed_ms))
}

/// Relies on `typing_engine::TypingEngine::construct_display_info`: builds
/// the display snapshot of the target, with laps taken every `lap_interval`
/// ideal key strokes; it errors only when the target was never started. A
/// zero interval cannot be handed to the engine, hence the precondition.
#[allow(deprecated)]
#[verifier::external_body]
pub(crate) fn engine_display_info(
    engine: &typing_engine::TypingEngine,
    lap_interval: usize,
) -> (r: Result<typing_engine::DisplayInfo, typing_engine::TypingEngineError>)
    requires
        lap_interval > 0,
    ensures
        engine_phase(*engine) is Started || engine_phase(*engine) is Done ==> r is Ok,
{
    engine.construct_display_info(typing_engine::LapRequest::IdealKeyStroke(NonZeroUsize::new(lap_interval).unwrap()))
}

/// Relies on `typing_engine::TypingEngine::construct_result`: builds the
/// result of the target; it errors only when the target was not started or
/// not yet finished, so on a finished target it succeeds. A zero interval
/// cannot be handed to the engine, hence the precondition.
#[allow(deprecated)]
#[verifier::external_body]
pub(crate) fn engine_result(
    engine: &typing_engine::TypingEngine,
    lap_interval: usize,
) -> (r: Result<typing_engine::TypingResult, typing_engine::TypingEngineError>)
    requires
        lap_interval > 0,
    ensures
        engine_phase(*engine) is Done ==> r is Ok,
{
    engine.construct_result(typing_engine::LapRequest::IdealKeyStroke(NonZeroUsize::new(lap_interval).unwrap()))
}

/// Relies on the engine's result accumulation (`std::ops::Add` on
/// `typing_engine::TypingResult`): counts sum and timing distributions
/// combine. Nothing about the combined value is assumed here.
#[verifier::external_body]
pub(crate) fn merge_results(
    a: typing_engine::TypingResult,
    b: typing_engine::TypingResult,
) -> typing_engine::TypingResult {
    a + b
}

} // verus!
