//! The structured-extraction engine: a bounded retry loop that asks a
//! structured generation backend for a response conforming to a schema.
//!
//! The engine itself performs no network traffic.  A driver makes one backend
//! call per attempt and feeds the outcome into [`engine_step`]; the step
//! result tells the driver whether to stop, and with what, or to wait the
//! fixed delay and call the backend once more.  [`run_extraction`] runs the
//! same machine over a pre-recorded list of outcomes.

use vstd::prelude::*;
use serde_json::Value;
use crate::errors::AdapterError;
use crate::json::{ExtractionResult, JsonValue};
use crate::schema::{conforms_spec, Schema};

verus! {

/// Hard ceiling on backend attempts per extraction call.
pub const ATTEMPT_CEILING: u8 = 10;

/// Fixed delay between two attempts, in milliseconds.
pub const RETRY_DELAY_MILLIS: u64 = 500;

/// Progress of one extraction call: how many attempts have been consumed, and
/// the last decoded (possibly non-conforming) response, kept for diagnostics.
#[derive(Debug, PartialEq, Eq)]
pub struct EngineState {
    pub attempts_done: u8,
    pub last: Option<ExtractionResult>,
}

/// What one attempt concluded.
#[derive(Debug, PartialEq, Eq)]
pub enum EngineStep {
    /// The response conforms; the extraction call is over.
    Accepted(ExtractionResult),
    /// The backend reported a transport or credential failure; give up at
    /// once, content retries cannot mend it.
    Fatal(AdapterError),
    /// The response was noise; wait [`RETRY_DELAY_MILLIS`] and try again from
    /// the carried state.
    RetryAfterDelay(EngineState),
    /// The attempt ceiling is spent; the last decoded response rides along.
    Exhausted(Option<ExtractionResult>),
}

/// How a whole extraction call ended.
#[derive(Debug, PartialEq, Eq)]
pub enum ExtractionOutcome {
    Success(ExtractionResult),
    Fatal(AdapterError),
    Exhausted(Option<ExtractionResult>),
}

/// The key-value fields decoded from one backend payload, or nothing when the
/// payload is not the text of a JSON object.  Scalars decode to themselves,
/// every number keeps its literal text, and nested values keep their rendered
/// text; fields follow the decoder's order, one entry per distinct key.
pub uninterp spec fn parse_fields(text: Seq<char>) -> Option<ExtractionResult>;

/// Relies on `serde_json::from_str` to decode JSON text — a pure function of
/// the text — and on the `Display` rendering of `serde_json` numbers and
/// values for the kept literal and nested texts.
#[verifier::external_body]
fn parse_payload(text: &str) -> (r: Option<ExtractionResult>)
    ensures
        r == parse_fields(text@),
{
    let decoded: Value = match serde_json::from_str(text) { Ok(v) => v, Err(_) => return None };
    let object = match decoded { Value::Object(m) => m, _ => return None };
    let mut fields: Vec<(String, JsonValue)> = Vec::new();
    for (key, value) in object {
        let field = match value {
            Value::Null => JsonValue::Null,
            Value::Bool(b) => JsonValue::Bool(b),
            Value::Number(n) => JsonValue::Num(n.to_string()),
            Value::String(s) => JsonValue::Text(s),
            nested => JsonValue::Composite(nested.to_string()),
        };
        fields.push((key, field));
    }
    Some(ExtractionResult { fields })
}

/// The step the engine takes when an attempt is rejected: retry after the
/// fixed delay while attempts remain, else report exhaustion.
pub open spec fn reject_spec(state: EngineState, last: Option<ExtractionResult>) -> EngineStep {
    if state.attempts_done + 1 < ATTEMPT_CEILING {
        EngineStep::RetryAfterDelay(
            EngineState { attempts_done: (state.attempts_done + 1) as u8, last },
        )
    } else {
        EngineStep::Exhausted(last)
    }
}

/// The engine's whole per-attempt decision.  Transport and credential
/// failures are fatal at once; a malformed response shape, an undecodable
/// payload and a non-conforming response are all noise and rejected; a
/// conforming response is accepted immediately.
pub open spec fn engine_step_spec(
    schema: Schema,
    state: EngineState,
    outcome: Result<String, AdapterError>,
) -> EngineStep {
    match outcome {
        Err(e) => if e.is_fatal() {
            EngineStep::Fatal(e)
        } else {
            reject_spec(state, state.last)
        },
        Ok(text) => match parse_fields(text@) {
            Some(r) => if conforms_spec(schema, r) {
                EngineStep::Accepted(r)
            } else {
                reject_spec(state, Some(r))
            },
            None => reject_spec(state, state.last),
        },
    }
}

/// The state an extraction call starts from: no attempt consumed, nothing
/// observed yet.
pub fn engine_init() -> (s: EngineState)
    ensures
        s == (EngineState { attempts_done: 0, last: None::<ExtractionResult> }),
{
    EngineState { attempts_done: 0, last: None }
}

/// Feeds one backend outcome into the engine.
pub fn engine_step(schema: &Schema, state: EngineState, outcome: Result<String, AdapterError>) -> (r:
    EngineStep)
    requires
        state.attempts_done < ATTEMPT_CEILING,
    ensures
        r == engine_step_spec(*schema, state, outcome),
        r matches EngineStep::RetryAfterDelay(s2) ==> s2.attempts_done == state.attempts_done + 1
            && s2.attempts_done < ATTEMPT_CEILING,
{
    match outcome {
        Err(e) => {
            let fatal: bool = match e {
                AdapterError::Protocol => false,
                _ => true,
            };
            if fatal {
                EngineStep::Fatal(e)
            } else {
                reject(state, None, false)
            }
        },
        Ok(text) => {
            match parse_payload(text.as_str()) {
                Some(r) => {
                    if schema.conforms(&r) {
                        EngineStep::Accepted(r)
                    } else {
                        reject(state, Some(r), true)
                    }
                },
                None => reject(state, None, false),
            }
        },
    }
}

/// Applies [`reject_spec`]: `observed` replaces the carried diagnostic
/// response only when `replace` is set.
fn reject(state: EngineState, observed: Option<ExtractionResult>, replace: bool) -> (r: EngineStep)
    requires
        state.attempts_done < ATTEMPT_CEILING,
    ensures
        r == reject_spec(
            state,
            if replace {
                observed
            } else {
                state.last
            },
        ),
        r matches EngineStep::RetryAfterDelay(s2) ==> s2.attempts_done == state.attempts_done + 1
            && s2.attempts_done < ATTEMPT_CEILING,
{
    let last = if replace {
        observed
    } else {
        state.last
    };
    if state.attempts_done + 1 < ATTEMPT_CEILING {
        EngineStep::RetryAfterDelay(EngineState { attempts_done: state.attempts_done + 1, last })
    } else {
        EngineStep::Exhausted(last)
    }
}

/// How the engine ends, and after how many backend calls, when started in
/// `state` with calls `i`.. of `outcomes` already made and answered.
pub open spec fn run_model(
    schema: Schema,
    state: EngineState,
    outcomes: Seq<Result<String, AdapterError>>,
    i: int,
) -> (ExtractionOutcome, int)
    decreases ATTEMPT_CEILING - state.attempts_done,
{
    if state.attempts_done >= ATTEMPT_CEILING || i < 0 || i >= outcomes.len() {
        (ExtractionOutcome::Exhausted(state.last), i)
    } else {
        match engine_step_spec(schema, state, outcomes[i]) {
            EngineStep::Accepted(r) => (ExtractionOutcome::Success(r), i + 1),
            EngineStep::Fatal(e) => (ExtractionOutcome::Fatal(e), i + 1),
            EngineStep::Exhausted(last) => (ExtractionOutcome::Exhausted(last), i + 1),
            EngineStep::RetryAfterDelay(s2) => run_model(schema, s2, outcomes, i + 1),
        }
    }
}

/// Runs one whole extraction call against pre-recorded backend outcomes, one
/// per attempt in order.  Returns how the call ended and how many backend
/// calls it consumed; every consumed call except the last was followed by one
/// fixed delay, so the delays number one fewer than the calls.
pub fn run_extraction(schema: &Schema, outcomes: &Vec<Result<String, AdapterError>>) -> (r: (
    ExtractionOutcome,
    usize,
))
    requires
        outcomes@.len() >= ATTEMPT_CEILING,
    ensures
        (r.0, r.1 as int) == run_model(
            *schema,
            EngineState { attempts_done: 0, last: None::<ExtractionResult> },
            outcomes@,
            0,
        ),
        1 <= r.1 <= ATTEMPT_CEILING,
{
    let mut state: EngineState = engine_init();
    let mut i: usize = 0;
    loop
        invariant
            i == state.attempts_done,
            state.attempts_done < ATTEMPT_CEILING,
            outcomes@.len() >= ATTEMPT_CEILING,
            run_model(
                *schema,
                EngineState { attempts_done: 0, last: None::<ExtractionResult> },
                outcomes@,
                0,
            ) == run_model(*schema, state, outcomes@, i as int),
        decreases ATTEMPT_CEILING - i,
    {
        let outcome = clone_outcome(&outcomes[i]);
        let ghost pre = state;
        let step = engine_step(schema, state, outcome);
        match step {
            EngineStep::Accepted(r) => {
                proof {
                    assert(run_model(*schema, pre, outcomes@, i as int) == (
                        ExtractionOutcome::Success(r),
                        i + 1,
                    ));
                }
                return (ExtractionOutcome::Success(r), i + 1);
            },
            EngineStep::Fatal(e) => {
                proof {
                    assert(run_model(*schema, pre, outcomes@, i as int) == (
                        ExtractionOutcome::Fatal(e),
                        i + 1,
                    ));
                }
                return (ExtractionOutcome::Fatal(e), i + 1);
            },
            EngineStep::Exhausted(last) => {
                proof {
                    assert(run_model(*schema, pre, outcomes@, i as int) == (
                        ExtractionOutcome::Exhausted(last),
                        i + 1,
                    ));
                }
                return (ExtractionOutcome::Exhausted(last), i + 1);
            },
            EngineStep::RetryAfterDelay(s2) => {
                proof {
                    assert(run_model(*schema, pre, outcomes@, i as int) == run_model(
                        *schema,
                        s2,
                        outcomes@,
                        i as int + 1,
                    ));
                }
                state = s2;
                i = i + 1;
            },
        }
    }
}

/// A faithful copy of one recorded backend outcome.
fn clone_outcome(o: &Result<String, AdapterError>) -> (r: Result<String, AdapterError>)
    ensures
        r == *o,
{
    match o {
        Ok(s) => Ok(s.clone()),
        Err(e) => Err(*e),
    }
}

} // verus!
