//! Session orchestration: the state machine over the single session slot
//! (Unconfigured, Configured, Running, Finished) together with the
//! persistent cross-session aggregate that survives re-configuration.
//!
//! The orchestrator owns the one engine instance; every mutation of the
//! slot goes through these operations, so a caller holding the orchestrator
//! behind one exclusive lock gets the mutual exclusion the protocol asks
//! for.

use vstd::prelude::*;
use vstd::string::StrSliceExecFns;

use crate::engine::{
    engine_display_info, engine_init, engine_new, engine_phase, engine_result, engine_start,
    engine_stroke_key, entry_typable, is_entry_typable, key_stroke_char_of, merge_results,
    stroke_time_floor, EnginePhase,
};
use crate::errors::CoreError;
use crate::query::QueryPlan;

verus! {

/// Lap interval, in ideal key strokes, that display snapshots and results
/// are constructed with.
pub const DISPLAY_LAP_INTERVAL: usize = 50;

/// Where the single session slot stands in its lifecycle.
#[derive(Clone, Copy, Debug, PartialEq, Eq, Structural)]
pub enum SessionState {
    /// No query has been configured yet.
    Unconfigured,
    /// A query is configured; typing has not started.
    Configured,
    /// Typing is under way.
    Running,
    /// The query was completed and its result merged into the aggregate.
    Finished,
}

/// The just-finished session's result next to the running aggregate.
#[derive(Debug)]
pub struct SessionResults {
    /// The most recently completed session's result.
    pub this_result: typing_engine::TypingResult,
    /// The accumulation of every completed session's result.
    pub aggregated_result: typing_engine::TypingResult,
}

/// Owner of the single engine instance, the session slot and the
/// cross-session aggregate.
pub struct SessionOrchestrator {
    engine: typing_engine::TypingEngine,
    state: SessionState,
    last_result: Option<typing_engine::TypingResult>,
    aggregated_result: Option<typing_engine::TypingResult>,
    completed_sessions: Ghost<nat>,
    latest_elapsed_ms: u64,
}

impl SessionOrchestrator {
    /// Where the session slot stands.
    pub closed spec fn state(&self) -> SessionState {
        self.state
    }

    /// How many sessions have completed since creation.
    pub closed spec fn completed(&self) -> nat {
        self.completed_sessions@
    }

    /// The most recently completed session's result, if any.
    pub closed spec fn last(&self) -> Option<typing_engine::TypingResult> {
        self.last_result
    }

    /// The running aggregate, if any session has completed.
    pub closed spec fn aggregate(&self) -> Option<typing_engine::TypingResult> {
        self.aggregated_result
    }

    /// The engine's lifecycle phase, as the trusted boundary tracks it.
    pub closed spec fn engine_lifecycle(&self) -> EnginePhase {
        engine_phase(self.engine)
    }

    /// The engine's last-correct-stroke time, in elapsed milliseconds.
    pub closed spec fn stroke_floor(&self) -> nat {
        stroke_time_floor(self.engine)
    }

    /// The elapsed milliseconds of the latest stroke this session accepted
    /// (zero before any).
    pub closed spec fn latest_stroke_ms(&self) -> nat {
        self.latest_elapsed_ms as nat
    }

    /// The aggregate and the last result exist exactly once a session has
    /// completed; a Finished slot implies a completed session; after
    /// exactly one completed session the aggregate is that session's
    /// result; and the slot's state mirrors the engine's lifecycle phase,
    /// with the engine's stroke times never ahead of the latest accepted
    /// stroke.
    pub open spec fn wf(&self) -> bool {
        &&& (self.aggregate() is Some <==> self.completed() > 0)
        &&& (self.last() is Some <==> self.completed() > 0)
        &&& (self.state() is Finished ==> self.completed() > 0)
        &&& (self.completed() == 1 ==> self.aggregate() == self.last())
        &&& (self.state() is Configured ==> self.engine_lifecycle() is Ready)
        &&& (self.state() is Running ==> self.engine_lifecycle() is Started)
        &&& (self.state() is Finished ==> self.engine_lifecycle() is Done)
        &&& (self.state() is Configured || self.state() is Running ==> self.stroke_floor()
            <= self.latest_stroke_ms())
    }

    /// Creates the orchestrator: a fresh engine, an unconfigured slot, no
    /// completed session.
    pub fn new() -> (s: SessionOrchestrator)
        ensures
            s.wf(),
            s.state() is Unconfigured,
            s.completed() == 0,
    {
        SessionOrchestrator {
            engine: engine_new(),
            state: SessionState::Unconfigured,
            last_result: None,
            aggregated_result: None,
            completed_sessions: Ghost(0nat),
            latest_elapsed_ms: 0,
        }
    }

    /// Hands a query to the engine and moves the slot to Configured.
    /// Allowed from Unconfigured and from Finished (a new session after a
    /// completed one); from any other state nothing changes and
    /// `SessionStateError` is returned. A query the engine cannot accept is
    /// rejected without touching anything: an empty entry set with
    /// `EmptyQuery`, an entry whose reading is empty with `UntypableEntry`.
    /// The aggregate and the completed count survive.
    pub fn configure(
        &mut self,
        entries: &Vec<typing_engine::VocabularyEntry>,
        plan: &QueryPlan,
    ) -> (r: Result<(), CoreError>)
        requires
            old(self).wf(),
            plan.wf(),
        ensures
            final(self).wf(),
            r is Ok <==> (old(self).state() is Unconfigured || old(self).state() is Finished)
                && entries@.len() > 0 && (forall|i: int|
                0 <= i < entries@.len() ==> #[trigger] entry_typable(entries@[i])),
            r is Ok ==> final(self).state() is Configured && final(self).latest_stroke_ms()
                == 0,
            !(old(self).state() is Unconfigured || old(self).state() is Finished) ==> (r matches
                Err(CoreError::SessionStateError)) && *final(self) == *old(self),
            (old(self).state() is Unconfigured || old(self).state() is Finished)
                && entries@.len() == 0 ==> (r matches Err(CoreError::EmptyQuery)) && *final(self)
                == *old(self),
            (old(self).state() is Unconfigured || old(self).state() is Finished)
                && entries@.len() > 0 && !(forall|i: int|
                0 <= i < entries@.len() ==> #[trigger] entry_typable(entries@[i])) ==> (r matches
                Err(CoreError::UntypableEntry)) && *final(self) == *old(self),
            final(self).completed() == old(self).completed(),
            final(self).aggregate() == old(self).aggregate(),
            final(self).last() == old(self).last(),
    {
        match self.state {
            SessionState::Unconfigured | SessionState::Finished => {
                if entries.len() == 0 {
                    return Err(CoreError::EmptyQuery);
                }
                let mut k: usize = 0;
                while k < entries.len()
                    invariant
                        *self == *old(self),
                        old(self).wf(),
                        old(self).state() is Unconfigured || old(self).state() is Finished,
                        entries@.len() > 0,
                        k <= entries@.len(),
                        forall|j: int| 0 <= j < k ==> #[trigger] entry_typable(entries@[j]),
                    decreases entries@.len() - k,
                {
                    if !is_entry_typable(&entries[k]) {
                        proof {
                            assert(!entry_typable(entries@[k as int]));
                        }
                        return Err(CoreError::UntypableEntry);
                    }
                    k = k + 1;
                }
                engine_init(&mut self.engine, entries, plan);
                self.state = SessionState::Configured;
                self.latest_elapsed_ms = 0;
                Ok(())
            },
            _ => Err(CoreError::SessionStateError),
        }
    }

    /// Starts typing: Configured becomes Running, and from Configured it
    /// always succeeds — the engine was configured and not yet started, the
    /// one situation its start accepts. From any other state nothing
    /// changes and `SessionStateError` is returned.
    pub fn start(&mut self) -> (r: Result<(), CoreError>)
        requires
            old(self).wf(),
        ensures
            final(self).wf(),
            r is Ok <==> old(self).state() is Configured,
            r is Ok ==> final(self).state() is Running,
            final(self).latest_stroke_ms() == old(self).latest_stroke_ms(),
            r is Err ==> (r matches Err(CoreError::SessionStateError)) && *final(self) == *old(
                self,
            ),
            final(self).completed() == old(self).completed(),
            final(self).aggregate() == old(self).aggregate(),
            final(self).last() == old(self).last(),
    {
        if self.state != SessionState::Configured {
            return Err(CoreError::SessionStateError);
        }
        match engine_start(&mut self.engine) {
            Ok(_) => {
                self.state = SessionState::Running;
                Ok(())
            },
            Err(e) => Err(CoreError::EngineError(e)),
        }
    }

    /// Feeds one key stroke with the elapsed session time. Valid only while
    /// Running. A key that is not exactly one character, or whose character
    /// the engine cannot accept as a key stroke (it takes displayable
    /// ASCII), fails with `InvalidKeyStroke`; a stroke dated before an
    /// already accepted one fails with `InvalidElapsedTime` (session time
    /// runs forward from the start, and the engine would abort on such a
    /// stroke); every failure leaves the orchestrator unchanged. A valid,
    /// correctly dated stroke in a running session always succeeds:
    /// `Ok(finished)` reports whether it completed the query, and on
    /// completion the slot moves to Finished and the session's result is
    /// merged into the aggregate — the first completed session's result
    /// becomes the aggregate itself.
    pub fn stroke_key(&mut self, key: &str, elapsed_ms: u64) -> (r: Result<bool, CoreError>)
        requires
            old(self).wf(),
        ensures
            final(self).wf(),
            r is Ok <==> old(self).state() is Running && key@.len() == 1 && (0x20 <= key@[0] as u32
                && key@[0] as u32 <= 0x7e) && old(self).latest_stroke_ms() <= elapsed_ms as nat,
            r is Ok ==> final(self).latest_stroke_ms() == elapsed_ms as nat,
            r is Err ==> *final(self) == *old(self),
            !(old(self).state() is Running) ==> r matches Err(CoreError::SessionStateError),
            old(self).state() is Running && key@.len() != 1 ==> r matches Err(
                CoreError::InvalidKeyStroke,
            ),
            old(self).state() is Running && key@.len() == 1 && !(0x20 <= key@[0] as u32
                && key@[0] as u32 <= 0x7e) ==> r matches Err(CoreError::InvalidKeyStroke),
            old(self).state() is Running && key@.len() == 1 && (0x20 <= key@[0] as u32
                && key@[0] as u32 <= 0x7e) && (elapsed_ms as nat) < old(self).latest_stroke_ms()
                ==> r matches Err(CoreError::InvalidElapsedTime),
            r matches Ok(finished) && !finished ==> final(self).state() is Running,
            r matches Ok(finished) && finished ==> final(self).state() is Finished
                && final(self).completed() == old(self).completed() + 1
                && final(self).last() is Some && final(self).aggregate() is Some
                && (old(self).completed() == 0 ==> final(self).aggregate() == final(self).last()),
            !(r matches Ok(finished) && finished) ==> final(self).completed() == old(self).completed()
                && final(self).aggregate() == old(self).aggregate()
                && final(self).last() == old(self).last(),
    {
        if self.state != SessionState::Running {
            return Err(CoreError::SessionStateError);
        }
        if key.unicode_len() != 1 {
            return Err(CoreError::InvalidKeyStroke);
        }
        let c = key.get_char(0);
        let ks = match key_stroke_char_of(c) {
            Some(k) => k,
            None => {
                return Err(CoreError::InvalidKeyStroke);
            },
        };
        if elapsed_ms < self.latest_elapsed_ms {
            return Err(CoreError::InvalidElapsedTime);
        }
        match engine_stroke_key(&mut self.engine, ks, elapsed_ms) {
            Ok(false) => {
                self.latest_elapsed_ms = elapsed_ms;
                Ok(false)
            },
            Ok(true) => {
                match engine_result(&self.engine, DISPLAY_LAP_INTERVAL) {
                    Ok(this) => {
                        let merged = match &self.aggregated_result {
                            Some(prev) => merge_results(prev.clone(), this.clone()),
                            None => this.clone(),
                        };
                        self.last_result = Some(this);
                        self.aggregated_result = Some(merged);
                        self.state = SessionState::Finished;
                        self.completed_sessions = Ghost(self.completed_sessions@ + 1);
                        self.latest_elapsed_ms = elapsed_ms;
                        Ok(true)
                    },
                    Err(e) => Err(CoreError::EngineError(e)),
                }
            },
            Err(e) => Err(CoreError::EngineError(e)),
        }
    }

    /// Returns the just-finished session's result and the running
    /// aggregate, mutating neither. Readable at any time once at least one
    /// session has completed; before that it fails with
    /// `AggregateNotInitialized`. After exactly one completed session the
    /// aggregate equals that session's result.
    pub fn get_result(&self) -> (r: Result<SessionResults, CoreError>)
        requires
            self.wf(),
        ensures
            self.completed() == 0 <==> r matches Err(CoreError::AggregateNotInitialized),
            r is Err ==> r matches Err(CoreError::AggregateNotInitialized),
            r matches Ok(g) ==> Some(g.this_result) == self.last() && Some(g.aggregated_result)
                == self.aggregate(),
            self.completed() == 1 ==> (r matches Ok(g) ==> g.this_result == g.aggregated_result),
    {
        match (&self.last_result, &self.aggregated_result) {
            (Some(last), Some(agg)) => Ok(
                SessionResults { this_result: last.clone(), aggregated_result: agg.clone() },
            ),
            _ => Err(CoreError::AggregateNotInitialized),
        }
    }

    /// The engine's display snapshot for the UI. Readable between strokes
    /// while a session is running and after it finished — there the engine's
    /// target is started, the one thing its snapshot needs, so this always
    /// succeeds. From other states it fails with `SessionStateError`.
    pub fn display_information(&self) -> (r: Result<typing_engine::DisplayInfo, CoreError>)
        requires
            self.wf(),
        ensures
            r is Ok <==> self.state() is Running || self.state() is Finished,
            r is Err ==> r matches Err(CoreError::SessionStateError),
    {
        match self.state {
            SessionState::Running | SessionState::Finished => {
                match engine_display_info(&self.engine, DISPLAY_LAP_INTERVAL) {
                    Ok(d) => Ok(d),
                    Err(e) => Err(CoreError::EngineError(e)),
                }
            },
            _ => Err(CoreError::SessionStateError),
        }
    }
}

} // verus!
