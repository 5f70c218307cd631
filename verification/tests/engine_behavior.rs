use saturn_core::engine::{
    engine_init, engine_step, run_extraction, EngineState, EngineStep, ExtractionOutcome,
};
use saturn_core::errors::AdapterError;
use saturn_core::json::{ExtractionResult, JsonValue};
use saturn_core::schema::{FieldType, PropertyDescriptor, Schema};

fn flag_schema(key: &str) -> Schema {
    Schema {
        name: "test_schema".to_string(),
        description: "test schema".to_string(),
        properties: vec![PropertyDescriptor {
            name: key.to_string(),
            field_type: FieldType::Boolean,
            description: "a flag".to_string(),
        }],
        required: vec![key.to_string()],
    }
}

fn ok(text: &str) -> Result<String, AdapterError> {
    Ok(text.to_string())
}

#[test]
fn accepts_on_fourth_attempt_after_three_noisy_ones() {
    let schema = flag_schema("x");
    let mut outcomes = vec![ok("{}"), ok("{}"), ok("{}"), ok("{\"x\": true}")];
    while outcomes.len() < 10 {
        outcomes.push(ok("{}"));
    }
    let (outcome, calls) = run_extraction(&schema, &outcomes);
    assert_eq!(calls, 4);
    match outcome {
        ExtractionOutcome::Success(r) => {
            assert_eq!(r.fields, vec![("x".to_string(), JsonValue::Bool(true))]);
        }
        other => panic!("expected success, got {:?}", other),
    }
}

#[test]
fn exhausts_after_exactly_ten_calls() {
    let schema = flag_schema("x");
    // Eleven outcomes on offer: the engine must stop at ten.
    let outcomes: Vec<Result<String, AdapterError>> = (0..11).map(|_| ok("{}")).collect();
    let (outcome, calls) = run_extraction(&schema, &outcomes);
    assert_eq!(calls, 10);
    match outcome {
        ExtractionOutcome::Exhausted(last) => {
            assert_eq!(last, Some(ExtractionResult { fields: vec![] }));
        }
        other => panic!("expected exhaustion, got {:?}", other),
    }
}

#[test]
fn transport_failure_is_fatal_on_first_call() {
    let schema = flag_schema("x");
    let mut outcomes = vec![Err(AdapterError::Transport)];
    while outcomes.len() < 10 {
        outcomes.push(ok("{\"x\": true}"));
    }
    let (outcome, calls) = run_extraction(&schema, &outcomes);
    assert_eq!(calls, 1);
    assert_eq!(outcome, ExtractionOutcome::Fatal(AdapterError::Transport));
}

#[test]
fn auth_failure_is_fatal_mid_run() {
    let schema = flag_schema("x");
    let mut outcomes = vec![ok("{}"), Err(AdapterError::Auth)];
    while outcomes.len() < 10 {
        outcomes.push(ok("{\"x\": true}"));
    }
    let (outcome, calls) = run_extraction(&schema, &outcomes);
    assert_eq!(calls, 2);
    assert_eq!(outcome, ExtractionOutcome::Fatal(AdapterError::Auth));
}

#[test]
fn protocol_failure_is_retried_not_fatal() {
    let schema = flag_schema("x");
    let mut outcomes = vec![Err(AdapterError::Protocol), ok("{\"x\": false}")];
    while outcomes.len() < 10 {
        outcomes.push(ok("{}"));
    }
    let (outcome, calls) = run_extraction(&schema, &outcomes);
    assert_eq!(calls, 2);
    match outcome {
        ExtractionOutcome::Success(r) => {
            assert_eq!(r.fields, vec![("x".to_string(), JsonValue::Bool(false))]);
        }
        other => panic!("expected success, got {:?}", other),
    }
}

#[test]
fn undecodable_and_non_object_payloads_are_noise() {
    let schema = flag_schema("x");
    let mut outcomes = vec![ok("not json at all"), ok("[1, 2, 3]"), ok("{\"x\": true}")];
    while outcomes.len() < 10 {
        outcomes.push(ok("{}"));
    }
    let (outcome, calls) = run_extraction(&schema, &outcomes);
    assert_eq!(calls, 3);
    assert!(matches!(outcome, ExtractionOutcome::Success(_)));
}

#[test]
fn null_flag_is_non_conforming() {
    let schema = flag_schema("x");
    let mut outcomes = vec![ok("{\"x\": null}"), ok("{\"x\": true}")];
    while outcomes.len() < 10 {
        outcomes.push(ok("{}"));
    }
    let (outcome, calls) = run_extraction(&schema, &outcomes);
    assert_eq!(calls, 2);
    assert!(matches!(outcome, ExtractionOutcome::Success(_)));
}

#[test]
fn wrong_typed_flag_is_non_conforming() {
    let schema = flag_schema("x");
    // The boolean spelled as a string does not satisfy a boolean field.
    let outcomes: Vec<Result<String, AdapterError>> =
        (0..10).map(|_| ok("{\"x\": \"true\"}")).collect();
    let (outcome, calls) = run_extraction(&schema, &outcomes);
    assert_eq!(calls, 10);
    match outcome {
        ExtractionOutcome::Exhausted(last) => {
            let r = last.expect("a decoded response should be carried out");
            assert_eq!(
                r.fields,
                vec![("x".to_string(), JsonValue::Text("true".to_string()))]
            );
        }
        other => panic!("expected exhaustion, got {:?}", other),
    }
}

#[test]
fn integer_fields_conform_and_keep_their_literal_text() {
    let schema = Schema {
        name: "numbers".to_string(),
        description: "numeric fields".to_string(),
        properties: vec![
            PropertyDescriptor {
                name: "count".to_string(),
                field_type: FieldType::Integer,
                description: "a count".to_string(),
            },
            PropertyDescriptor {
                name: "ratio".to_string(),
                field_type: FieldType::Number,
                description: "a ratio".to_string(),
            },
        ],
        required: vec!["count".to_string(), "ratio".to_string()],
    };
    let mut outcomes = vec![ok("{\"count\": -42, \"ratio\": 1.5}")];
    while outcomes.len() < 10 {
        outcomes.push(ok("{}"));
    }
    let (outcome, calls) = run_extraction(&schema, &outcomes);
    assert_eq!(calls, 1);
    match outcome {
        ExtractionOutcome::Success(r) => {
            assert_eq!(
                r.fields,
                vec![
                    ("count".to_string(), JsonValue::Num("-42".to_string())),
                    ("ratio".to_string(), JsonValue::Num("1.5".to_string())),
                ]
            );
        }
        other => panic!("expected success, got {:?}", other),
    }
}

#[test]
fn fractional_number_does_not_conform_as_integer() {
    let schema = Schema {
        name: "numbers".to_string(),
        description: "numeric fields".to_string(),
        properties: vec![PropertyDescriptor {
            name: "count".to_string(),
            field_type: FieldType::Integer,
            description: "a count".to_string(),
        }],
        required: vec!["count".to_string()],
    };
    let outcomes: Vec<Result<String, AdapterError>> =
        (0..10).map(|_| ok("{\"count\": 1.5}")).collect();
    let (outcome, calls) = run_extraction(&schema, &outcomes);
    assert_eq!(calls, 10);
    assert!(matches!(outcome, ExtractionOutcome::Exhausted(_)));
}

#[test]
fn single_step_retry_increments_attempts() {
    let schema = flag_schema("x");
    let state = engine_init();
    assert_eq!(
        state,
        EngineState {
            attempts_done: 0,
            last: None
        }
    );
    match engine_step(&schema, state, Ok("{}".to_string())) {
        EngineStep::RetryAfterDelay(next) => {
            assert_eq!(next.attempts_done, 1);
            assert_eq!(next.last, Some(ExtractionResult { fields: vec![] }));
        }
        other => panic!("expected a retry, got {:?}", other),
    }
}

#[test]
fn nested_values_are_kept_as_rendered_text() {
    let schema = flag_schema("x");
    let mut outcomes = vec![ok("{\"x\": true, \"extra\": [1, 2]}")];
    while outcomes.len() < 10 {
        outcomes.push(ok("{}"));
    }
    let (outcome, _) = run_extraction(&schema, &outcomes);
    match outcome {
        ExtractionOutcome::Success(r) => {
            let extra = r
                .fields
                .iter()
                .find(|(k, _)| k == "extra")
                .map(|(_, v)| v.clone());
            assert_eq!(extra, Some(JsonValue::Composite("[1,2]".to_string())));
        }
        other => panic!("expected success, got {:?}", other),
    }
}
