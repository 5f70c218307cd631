//! The orchestrator: a state machine that drives one query through the
//! provider fallback chain and the two classifiers until a candidate is
//! accepted or the outer retry budget is spent.
//!
//! The machine performs no call itself.  Each non-terminal phase names
//! exactly one outbound action — a provider completion or a classification —
//! and a driver answers it with one [`SaturnEvent`].  Feeding the event into
//! [`saturn_step`] yields the next phase.  [`saturn_run`] runs the machine
//! over a pre-recorded event list.

use vstd::prelude::*;
use crate::errors::AdapterError;

verus! {

/// Hard ceiling on outer attempts: full generate-and-classify passes over
/// one query.  Independent of the extraction engine's own attempt ceiling.
pub const OUTER_ATTEMPT_CEILING: u8 = 10;

/// The fixed reply returned when every outer attempt was judged
/// unsatisfactory.
pub open spec fn apology_view() -> Seq<char> {
    "I'm sorry, but I'm unable to provide a satisfactory response at this time. Please try again later."@
}

/// The fixed reply returned when every outer attempt was judged
/// unsatisfactory.
pub fn apology_text() -> (r: String)
    ensures
        r@ == apology_view(),
{
    "I'm sorry, but I'm unable to provide a satisfactory response at this time. Please try again later.".to_owned()
}

/// Where the orchestrator stands within one outer attempt, carrying the
/// current candidate answer where one exists.
#[derive(Debug, PartialEq, Eq)]
pub enum SaturnPhase {
    /// Ask the primary completion backend for a candidate.
    TryPrimary,
    /// The primary backend failed; ask the secondary one.
    TrySecondary,
    /// Ask the needs-internet classifier about the candidate.
    CheckInternetNeed { candidate: String },
    /// Live data is needed; ask the tertiary (live-search) backend.
    QueryTertiary { candidate: String },
    /// Ask the is-satisfactory classifier about the candidate.
    CheckSatisfaction { candidate: String },
    /// The candidate was accepted; it is the answer.
    Accepted { response: String },
    /// Every outer attempt was rejected; the answer is the fixed apology.
    GaveUp,
    /// A tertiary-backend or classifier failure ended the run.
    Failed { error: AdapterError },
}

/// The whole orchestrator state: the phase plus how many outer attempts have
/// already ended in rejection.
#[derive(Debug, PartialEq, Eq)]
pub struct SaturnState {
    pub attempts_done: u8,
    pub phase: SaturnPhase,
}

/// The answer a driver hands back for the single action a phase names.
#[derive(Debug, PartialEq, Eq)]
pub enum SaturnEvent {
    PrimaryDone(Result<String, AdapterError>),
    SecondaryDone(Result<String, AdapterError>),
    InternetChecked(Result<bool, AdapterError>),
    TertiaryDone(Result<String, AdapterError>),
    SatisfactionChecked(Result<bool, AdapterError>),
}

/// The mathematical image of a phase: candidate texts as character
/// sequences.
pub enum PhaseView {
    TryPrimary,
    TrySecondary,
    CheckInternetNeed { candidate: Seq<char> },
    QueryTertiary { candidate: Seq<char> },
    CheckSatisfaction { candidate: Seq<char> },
    Accepted { response: Seq<char> },
    GaveUp,
    Failed { error: AdapterError },
}

/// The mathematical image of the orchestrator state.
pub struct StateView {
    pub attempts_done: int,
    pub phase: PhaseView,
}

/// The mathematical image of an event.
pub enum EventView {
    PrimaryDone(Result<Seq<char>, AdapterError>),
    SecondaryDone(Result<Seq<char>, AdapterError>),
    InternetChecked(Result<bool, AdapterError>),
    TertiaryDone(Result<Seq<char>, AdapterError>),
    SatisfactionChecked(Result<bool, AdapterError>),
}

impl View for SaturnPhase {
    type V = PhaseView;

    open spec fn view(&self) -> PhaseView {
        match self {
            SaturnPhase::TryPrimary => PhaseView::TryPrimary,
            SaturnPhase::TrySecondary => PhaseView::TrySecondary,
            SaturnPhase::CheckInternetNeed { candidate } => PhaseView::CheckInternetNeed {
                candidate: candidate@,
            },
            SaturnPhase::QueryTertiary { candidate } => PhaseView::QueryTertiary {
                candidate: candidate@,
            },
            SaturnPhase::CheckSatisfaction { candidate } => PhaseView::CheckSatisfaction {
                candidate: candidate@,
            },
            SaturnPhase::Accepted { response } => PhaseView::Accepted { response: response@ },
            SaturnPhase::GaveUp => PhaseView::GaveUp,
            SaturnPhase::Failed { error } => PhaseView::Failed { error: *error },
        }
    }
}

impl View for SaturnState {
    type V = StateView;

    open spec fn view(&self) -> StateView {
        StateView { attempts_done: self.attempts_done as int, phase: self.phase@ }
    }
}

impl View for SaturnEvent {
    type V = EventView;

    open spec fn view(&self) -> EventView {
        match self {
            SaturnEvent::PrimaryDone(res) => EventView::PrimaryDone(
                match res {
                    Ok(s) => Ok(s@),
                    Err(e) => Err(*e),
                },
            ),
            SaturnEvent::SecondaryDone(res) => EventView::SecondaryDone(
                match res {
                    Ok(s) => Ok(s@),
                    Err(e) => Err(*e),
                },
            ),
            SaturnEvent::InternetChecked(res) => EventView::InternetChecked(*res),
            SaturnEvent::TertiaryDone(res) => EventView::TertiaryDone(
                match res {
                    Ok(s) => Ok(s@),
                    Err(e) => Err(*e),
                },
            ),
            SaturnEvent::SatisfactionChecked(res) => EventView::SatisfactionChecked(*res),
        }
    }
}

/// Whether a phase ends the run.
pub open spec fn terminal_model(p: PhaseView) -> bool {
    match p {
        PhaseView::Accepted { .. } => true,
        PhaseView::GaveUp => true,
        PhaseView::Failed { .. } => true,
        _ => false,
    }
}

/// Whether an event answers the one action the phase names.
pub open spec fn expects_model(p: PhaseView, e: EventView) -> bool {
    match p {
        PhaseView::TryPrimary => e is PrimaryDone,
        PhaseView::TrySecondary => e is SecondaryDone,
        PhaseView::CheckInternetNeed { .. } => e is InternetChecked,
        PhaseView::QueryTertiary { .. } => e is TertiaryDone,
        PhaseView::CheckSatisfaction { .. } => e is SatisfactionChecked,
        _ => false,
    }
}

/// The orchestrator's whole transition relation.
///
/// A primary or secondary completion failure falls through the chain; a
/// double failure makes the empty string the last-resort candidate and the
/// run still proceeds to classification.  A needs-internet verdict of `true`
/// routes the query to the tertiary backend, whose answer replaces the
/// candidate and whose failure — unlike the primary and secondary ones — is
/// fatal.  A satisfactory candidate is accepted; an unsatisfactory one spends
/// one outer attempt, and the run gives up once all are spent.  A classifier
/// failure is fatal.  A terminal state, or an event that does not answer the
/// pending action, changes nothing.
pub open spec fn saturn_step_model(s: StateView, e: EventView) -> StateView {
    if terminal_model(s.phase) || !expects_model(s.phase, e) {
        s
    } else {
        match (s.phase, e) {
            (PhaseView::TryPrimary, EventView::PrimaryDone(res)) => match res {
                Ok(c) => StateView {
                    attempts_done: s.attempts_done,
                    phase: PhaseView::CheckInternetNeed { candidate: c },
                },
                Err(_) => StateView { attempts_done: s.attempts_done, phase: PhaseView::TrySecondary },
            },
            (PhaseView::TrySecondary, EventView::SecondaryDone(res)) => StateView {
                attempts_done: s.attempts_done,
                phase: PhaseView::CheckInternetNeed {
                    candidate: match res {
                        Ok(c) => c,
                        Err(_) => Seq::<char>::empty(),
                    },
                },
            },
            (PhaseView::CheckInternetNeed { candidate }, EventView::InternetChecked(res)) => match res {
                Ok(true) => StateView {
                    attempts_done: s.attempts_done,
                    phase: PhaseView::QueryTertiary { candidate },
                },
                Ok(false) => StateView {
                    attempts_done: s.attempts_done,
                    phase: PhaseView::CheckSatisfaction { candidate },
                },
                Err(error) => StateView {
                    attempts_done: s.attempts_done,
                    phase: PhaseView::Failed { error },
                },
            },
            (PhaseView::QueryTertiary { .. }, EventView::TertiaryDone(res)) => match res {
                Ok(t) => StateView {
                    attempts_done: s.attempts_done,
                    phase: PhaseView::CheckSatisfaction { candidate: t },
                },
                Err(error) => StateView {
                    attempts_done: s.attempts_done,
                    phase: PhaseView::Failed { error },
                },
            },
            (PhaseView::CheckSatisfaction { candidate }, EventView::SatisfactionChecked(res)) => match res {
                Ok(true) => StateView {
                    attempts_done: s.attempts_done,
                    phase: PhaseView::Accepted { response: candidate },
                },
                Ok(false) => StateView {
                    attempts_done: s.attempts_done + 1,
                    phase: if s.attempts_done + 1 < OUTER_ATTEMPT_CEILING {
                        PhaseView::TryPrimary
                    } else {
                        PhaseView::GaveUp
                    },
                },
                Err(error) => StateView {
                    attempts_done: s.attempts_done,
                    phase: PhaseView::Failed { error },
                },
            },
            _ => s,
        }
    }
}

/// A state the machine can actually reach: the attempt counter stays within
/// the budget, only a terminal state may have spent all of it, and giving up
/// happens exactly when all of it is spent.
pub open spec fn wf_model(s: StateView) -> bool {
    &&& 0 <= s.attempts_done <= OUTER_ATTEMPT_CEILING
    &&& !terminal_model(s.phase) ==> s.attempts_done < OUTER_ATTEMPT_CEILING
    &&& s.phase is GaveUp ==> s.attempts_done == OUTER_ATTEMPT_CEILING
}

/// How much work can still lie ahead: five pending actions per remaining
/// outer attempt.  Zero on terminal states, at most fifty anywhere, and
/// strictly falling across every answered step — the run is bounded.
pub open spec fn measure_model(s: StateView) -> int {
    if terminal_model(s.phase) {
        0
    } else {
        (OUTER_ATTEMPT_CEILING - s.attempts_done) * 5 - (
        match s.phase {
            PhaseView::TryPrimary => 0int,
            PhaseView::TrySecondary => 1int,
            PhaseView::CheckInternetNeed { .. } => 2int,
            PhaseView::QueryTertiary { .. } => 3int,
            PhaseView::CheckSatisfaction { .. } => 4int,
            _ => 0int,
        })
    }
}

/// The state a run starts from: the first attempt, primary backend first.
pub fn saturn_init() -> (s: SaturnState)
    ensures
        s == (SaturnState { attempts_done: 0, phase: SaturnPhase::TryPrimary }),
        wf_model(s@),
        measure_model(s@) == 5 * (OUTER_ATTEMPT_CEILING as int),
{
    SaturnState { attempts_done: 0, phase: SaturnPhase::TryPrimary }
}

/// Whether the run is over.
pub fn saturn_finished(state: &SaturnState) -> (b: bool)
    ensures
        b == terminal_model(state@.phase),
{
    match state.phase {
        SaturnPhase::Accepted { .. } => true,
        SaturnPhase::GaveUp => true,
        SaturnPhase::Failed { .. } => true,
        _ => false,
    }
}

/// Whether `event` answers the one action `state`'s phase names.
pub fn saturn_expects(state: &SaturnState, event: &SaturnEvent) -> (b: bool)
    ensures
        b == expects_model(state@.phase, event@),
{
    match (&state.phase, event) {
        (SaturnPhase::TryPrimary, SaturnEvent::PrimaryDone(_)) => true,
        (SaturnPhase::TrySecondary, SaturnEvent::SecondaryDone(_)) => true,
        (SaturnPhase::CheckInternetNeed { .. }, SaturnEvent::InternetChecked(_)) => true,
        (SaturnPhase::QueryTertiary { .. }, SaturnEvent::TertiaryDone(_)) => true,
        (SaturnPhase::CheckSatisfaction { .. }, SaturnEvent::SatisfactionChecked(_)) => true,
        _ => false,
    }
}

/// Feeds one answered action into the machine.
pub fn saturn_step(state: SaturnState, event: SaturnEvent) -> (r: SaturnState)
    requires
        wf_model(state@),
    ensures
        r@ == saturn_step_model(state@, event@),
        wf_model(r@),
        expects_model(state@.phase, event@) && !terminal_model(state@.phase) ==> measure_model(r@)
            < measure_model(state@),
{
    match (state.phase, event) {
        (SaturnPhase::TryPrimary, SaturnEvent::PrimaryDone(res)) => match res {
            Ok(c) => SaturnState {
                attempts_done: state.attempts_done,
                phase: SaturnPhase::CheckInternetNeed { candidate: c },
            },
            Err(_) => SaturnState {
                attempts_done: state.attempts_done,
                phase: SaturnPhase::TrySecondary,
            },
        },
        (SaturnPhase::TrySecondary, SaturnEvent::SecondaryDone(res)) => SaturnState {
            attempts_done: state.attempts_done,
            phase: SaturnPhase::CheckInternetNeed {
                candidate: match res {
                    Ok(c) => c,
                    Err(_) => String::new(),
                },
            },
        },
        (SaturnPhase::CheckInternetNeed { candidate }, SaturnEvent::InternetChecked(res)) => match res {
            Ok(true) => SaturnState {
                attempts_done: state.attempts_done,
                phase: SaturnPhase::QueryTertiary { candidate },
            },
            Ok(false) => SaturnState {
                attempts_done: state.attempts_done,
                phase: SaturnPhase::CheckSatisfaction { candidate },
            },
            Err(error) => SaturnState {
                attempts_done: state.attempts_done,
                phase: SaturnPhase::Failed { error },
            },
        },
        (SaturnPhase::QueryTertiary { candidate }, SaturnEvent::TertiaryDone(res)) => match res {
            Ok(t) => SaturnState {
                attempts_done: state.attempts_done,
                phase: SaturnPhase::CheckSatisfaction { candidate: t },
            },
            Err(error) => SaturnState {
                attempts_done: state.attempts_done,
                phase: SaturnPhase::Failed { error },
            },
        },
        (SaturnPhase::CheckSatisfaction { candidate }, SaturnEvent::SatisfactionChecked(res)) => match res {
            Ok(true) => SaturnState {
                attempts_done: state.attempts_done,
                phase: SaturnPhase::Accepted { response: candidate },
            },
            Ok(false) => SaturnState {
                attempts_done: state.attempts_done + 1,
                phase: if state.attempts_done + 1 < OUTER_ATTEMPT_CEILING {
                    SaturnPhase::TryPrimary
                } else {
                    SaturnPhase::GaveUp
                },
            },
            Err(error) => SaturnState {
                attempts_done: state.attempts_done,
                phase: SaturnPhase::Failed { error },
            },
        },
        (phase, _) => SaturnState { attempts_done: state.attempts_done, phase },
    }
}

/// What a finished run answers: the accepted response, the fixed apology
/// after a spent budget, or the fatal error.  Nothing on a run still under
/// way.
pub fn saturn_outcome(state: SaturnState) -> (r: Option<Result<String, AdapterError>>)
    ensures
        state@.phase matches PhaseView::Accepted { response } ==> (r matches Some(res) && res
            matches Ok(s) && s@ == response),
        state@.phase is GaveUp ==> (r matches Some(res) && res matches Ok(s) && s@
            == apology_view()),
        state@.phase matches PhaseView::Failed { error } ==> r == Some(
            Err::<String, AdapterError>(error),
        ),
        !terminal_model(state@.phase) ==> r is None,
{
    match state.phase {
        SaturnPhase::Accepted { response } => Some(Ok(response)),
        SaturnPhase::GaveUp => Some(Ok(apology_text())),
        SaturnPhase::Failed { error } => Some(Err(error)),
        _ => None,
    }
}

/// The state a run reaches, and how many events it consumes, when the
/// answers `i`.. of `events` are fed in order: it stops at the first
/// terminal state, at the first answer that does not match the pending
/// action, or when the answers run out.
pub open spec fn saturn_run_from(s: StateView, events: Seq<SaturnEvent>, i: int) -> (StateView, int)
    decreases events.len() - i,
{
    if i < 0 || i >= events.len() || terminal_model(s.phase) || !expects_model(
        s.phase,
        events[i]@,
    ) {
        (s, i)
    } else {
        saturn_run_from(saturn_step_model(s, events[i]@), events, i + 1)
    }
}

/// Runs the whole machine over pre-recorded answers, one per action in
/// order.  However long the list, a run consumes at most fifty answers: five
/// actions per outer attempt, ten outer attempts.
pub fn saturn_run(events: &Vec<SaturnEvent>) -> (r: (SaturnState, usize))
    ensures
        (r.0@, r.1 as int) == saturn_run_from(
            StateView { attempts_done: 0, phase: PhaseView::TryPrimary },
            events@,
            0,
        ),
        r.1 <= events@.len(),
        r.1 as int <= 5 * (OUTER_ATTEMPT_CEILING as int),
        wf_model(r.0@),
{
    let mut state: SaturnState = saturn_init();
    let mut i: usize = 0;
    loop
        invariant
            wf_model(state@),
            i <= events@.len(),
            i as int + measure_model(state@) <= 5 * (OUTER_ATTEMPT_CEILING as int),
            saturn_run_from(
                StateView { attempts_done: 0, phase: PhaseView::TryPrimary },
                events@,
                0,
            ) == saturn_run_from(state@, events@, i as int),
        ensures
            wf_model(state@),
            i <= events@.len(),
            i as int + measure_model(state@) <= 5 * (OUTER_ATTEMPT_CEILING as int),
            saturn_run_from(
                StateView { attempts_done: 0, phase: PhaseView::TryPrimary },
                events@,
                0,
            ) == (state@, i as int),
        decreases events@.len() - i,
    {
        if i >= events.len() {
            break;
        }
        if saturn_finished(&state) {
            proof {
                assert(saturn_run_from(state@, events@, i as int) == (state@, i as int));
            }
            break;
        }
        let event = clone_event(&events[i]);
        if !saturn_expects(&state, &event) {
            proof {
                assert(saturn_run_from(state@, events@, i as int) == (state@, i as int));
            }
            break;
        }
        let ghost pre = state@;
        state = saturn_step(state, event);
        proof {
            assert(saturn_run_from(pre, events@, i as int) == saturn_run_from(
                state@,
                events@,
                i as int + 1,
            ));
            assert(measure_model(state@) >= 0);
        }
        i = i + 1;
    }
    (state, i)
}

/// When the primary backend answers, its answer is the candidate at once —
/// no secondary or tertiary action is ever named along the way — and when
/// the classifiers then judge it needing no live data and satisfactory, the
/// run ends accepted after exactly one completion and one classification
/// pair, still on the first outer attempt.
pub proof fn lemma_first_candidate_accepted(answer: Seq<char>)
    ensures
        ({
            let s0 = StateView { attempts_done: 0, phase: PhaseView::TryPrimary };
            let s1 = saturn_step_model(s0, EventView::PrimaryDone(Ok(answer)));
            let s2 = saturn_step_model(s1, EventView::InternetChecked(Ok(false)));
            let s3 = saturn_step_model(s2, EventView::SatisfactionChecked(Ok(true)));
            &&& s1 == (StateView {
                attempts_done: 0,
                phase: PhaseView::CheckInternetNeed { candidate: answer },
            })
            &&& (forall|e: EventView| expects_model(s1.phase, e) ==> e is InternetChecked)
            &&& s2 == (StateView {
                attempts_done: 0,
                phase: PhaseView::CheckSatisfaction { candidate: answer },
            })
            &&& (forall|e: EventView| expects_model(s2.phase, e) ==> e is SatisfactionChecked)
            &&& s3 == (StateView {
                attempts_done: 0,
                phase: PhaseView::Accepted { response: answer },
            })
        }),
{
}

/// When the primary backend fails, the secondary one is asked and its answer
/// becomes the candidate; when both fail, the empty string becomes the
/// candidate and the run still proceeds to the internet-need classification
/// rather than failing or retrying.
pub proof fn lemma_secondary_takes_over(
    s: StateView,
    answer: Seq<char>,
    primary_error: AdapterError,
    secondary_error: AdapterError,
)
    requires
        s.phase is TryPrimary,
    ensures
        ({
            let s1 = saturn_step_model(s, EventView::PrimaryDone(Err(primary_error)));
            let both = saturn_step_model(s1, EventView::SecondaryDone(Err(secondary_error)));
            &&& s1 == (StateView { attempts_done: s.attempts_done, phase: PhaseView::TrySecondary })
            &&& saturn_step_model(s1, EventView::SecondaryDone(Ok(answer))) == (StateView {
                attempts_done: s.attempts_done,
                phase: PhaseView::CheckInternetNeed { candidate: answer },
            })
            &&& both == (StateView {
                attempts_done: s.attempts_done,
                phase: PhaseView::CheckInternetNeed { candidate: Seq::<char>::empty() },
            })
            &&& (forall|e: EventView| expects_model(both.phase, e) ==> e is InternetChecked)
        }),
{
}

/// When the needs-internet classifier answers `true`, the one action the
/// next phase names is a single tertiary-backend call; its answer replaces
/// the candidate before satisfaction is checked, and its failure — unlike a
/// primary or secondary failure — ends the whole run.
pub proof fn lemma_internet_need_routes_to_tertiary(
    s: StateView,
    candidate: Seq<char>,
    live_answer: Seq<char>,
    live_error: AdapterError,
)
    requires
        s.phase == (PhaseView::CheckInternetNeed { candidate }),
    ensures
        ({
            let s1 = saturn_step_model(s, EventView::InternetChecked(Ok(true)));
            &&& s1 == (StateView {
                attempts_done: s.attempts_done,
                phase: PhaseView::QueryTertiary { candidate },
            })
            &&& (forall|e: EventView| expects_model(s1.phase, e) ==> e is TertiaryDone)
            &&& saturn_step_model(s1, EventView::TertiaryDone(Ok(live_answer))) == (StateView {
                attempts_done: s.attempts_done,
                phase: PhaseView::CheckSatisfaction { candidate: live_answer },
            })
            &&& saturn_step_model(s1, EventView::TertiaryDone(Err(live_error))) == (StateView {
                attempts_done: s.attempts_done,
                phase: PhaseView::Failed { error: live_error },
            })
        }),
{
}

/// An unsatisfactory verdict spends one outer attempt: the run goes back to
/// the primary backend while budget remains, and gives up — answering the
/// fixed apology, see [`saturn_outcome`] — exactly when the verdict was the
/// tenth.
pub proof fn lemma_rejection_spends_budget(s: StateView, candidate: Seq<char>)
    requires
        s.phase == (PhaseView::CheckSatisfaction { candidate }),
        0 <= s.attempts_done < OUTER_ATTEMPT_CEILING,
    ensures
        ({
            let s1 = saturn_step_model(s, EventView::SatisfactionChecked(Ok(false)));
            &&& s1.attempts_done == s.attempts_done + 1
            &&& (s.attempts_done + 1 < OUTER_ATTEMPT_CEILING ==> s1.phase is TryPrimary)
            &&& (s.attempts_done + 1 == OUTER_ATTEMPT_CEILING ==> s1.phase is GaveUp)
        }),
{
}

/// No acceptance without a satisfied check: when a run over the answers
/// `i`.. of `events` reaches the accepted state from one that is not
/// already accepted, at least one of those answers is a satisfaction check
/// carrying `true`.  So a run whose satisfaction checks all carry `false`
/// can only give up, with the fixed apology, or fail on a fatal error.
pub proof fn lemma_acceptance_needs_satisfied_verdict(
    s: StateView,
    events: Seq<SaturnEvent>,
    i: int,
)
    requires
        !(s.phase is Accepted),
        saturn_run_from(s, events, i).0.phase is Accepted,
    ensures
        exists|j: int|
            i <= j < events.len() && #[trigger] events[j]@ == EventView::SatisfactionChecked(
                Ok::<bool, AdapterError>(true),
            ),
    decreases events.len() - i,
{
    let stepped = saturn_step_model(s, events[i]@);
    if stepped.phase is Accepted {
        assert(events[i]@ == EventView::SatisfactionChecked(Ok::<bool, AdapterError>(true)));
    } else {
        lemma_acceptance_needs_satisfied_verdict(stepped, events, i + 1);
    }
}

/// A faithful copy of one recorded answer.
fn clone_event(e: &SaturnEvent) -> (r: SaturnEvent)
    ensures
        r == *e,
{
    match e {
        SaturnEvent::PrimaryDone(res) => SaturnEvent::PrimaryDone(clone_completion(res)),
        SaturnEvent::SecondaryDone(res) => SaturnEvent::SecondaryDone(clone_completion(res)),
        SaturnEvent::InternetChecked(res) => SaturnEvent::InternetChecked(*res),
        SaturnEvent::TertiaryDone(res) => SaturnEvent::TertiaryDone(clone_completion(res)),
        SaturnEvent::SatisfactionChecked(res) => SaturnEvent::SatisfactionChecked(*res),
    }
}

/// A faithful copy of one recorded completion outcome.
fn clone_completion(res: &Result<String, AdapterError>) -> (r: Result<String, AdapterError>)
    ensures
        r == *res,
{
    match res {
        Ok(s) => Ok(s.clone()),
        Err(e) => Err(*e),
    }
}

} // verus!
