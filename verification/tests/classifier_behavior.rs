use saturn_core::classifier::{
    classifier_verdict, is_satisfactory_request, needs_internet_request,
};
use saturn_core::engine::{run_extraction, ExtractionOutcome};
use saturn_core::errors::AdapterError;
use saturn_core::json::{ExtractionResult, JsonValue};
use saturn_core::schema::FieldType;

fn ok(text: &str) -> Result<String, AdapterError> {
    Ok(text.to_string())
}

#[test]
fn satisfactory_request_is_fully_pinned() {
    let query = "What is the population of New York City?".to_string();
    let response = "About 8.4 million people.".to_string();
    let request = is_satisfactory_request(&query, &response);
    assert_eq!(
        request.query,
        "Does this response satisfactorily answer the question"
    );
    assert_eq!(request.schema.name, "check_satisfactory_response");
    assert_eq!(request.schema.required, vec!["satisfactory".to_string()]);
    assert_eq!(request.schema.properties.len(), 1);
    assert_eq!(request.schema.properties[0].name, "satisfactory");
    assert_eq!(request.schema.properties[0].field_type, FieldType::Boolean);
    assert_eq!(
        request.context,
        vec![
            ("query".to_string(), query.clone()),
            ("response".to_string(), response.clone()),
        ]
    );
}

#[test]
fn needs_internet_request_is_fully_pinned() {
    let query = "What's the weather like in Orange County, CA?".to_string();
    let response = "I cannot access live weather data.".to_string();
    let request = needs_internet_request(&query, &response);
    assert_eq!(request.query, "Does this query need internet access");
    assert_eq!(request.schema.name, "check_internet_access");
    assert_eq!(
        request.schema.description,
        "Determines if the query's response requires internet access"
    );
    assert_eq!(request.schema.required, vec!["needs_internet".to_string()]);
    assert_eq!(request.schema.properties[0].field_type, FieldType::Boolean);
    assert_eq!(
        request.context,
        vec![
            ("query".to_string(), query.clone()),
            ("response".to_string(), response.clone()),
        ]
    );
}

#[test]
fn verdict_reads_the_flag_off_a_success() {
    let key = "satisfactory".to_string();
    let success = ExtractionOutcome::Success(ExtractionResult {
        fields: vec![
            ("satisfactory".to_string(), JsonValue::Bool(true)),
            ("is_valid_json_response".to_string(), JsonValue::Bool(true)),
        ],
    });
    assert_eq!(classifier_verdict(&key, success), Ok(true));
    let negative = ExtractionOutcome::Success(ExtractionResult {
        fields: vec![("satisfactory".to_string(), JsonValue::Bool(false))],
    });
    assert_eq!(classifier_verdict(&key, negative), Ok(false));
}

#[test]
fn verdict_propagates_fatal_failures() {
    let key = "needs_internet".to_string();
    assert_eq!(
        classifier_verdict(&key, ExtractionOutcome::Fatal(AdapterError::Auth)),
        Err(AdapterError::Auth)
    );
    assert_eq!(
        classifier_verdict(&key, ExtractionOutcome::Fatal(AdapterError::Transport)),
        Err(AdapterError::Transport)
    );
}

#[test]
fn verdict_degrades_exhaustion_to_false() {
    let key = "needs_internet".to_string();
    assert_eq!(
        classifier_verdict(&key, ExtractionOutcome::Exhausted(None)),
        Ok(false)
    );
    let with_noise = ExtractionOutcome::Exhausted(Some(ExtractionResult {
        fields: vec![("needs_internet".to_string(), JsonValue::Null)],
    }));
    assert_eq!(classifier_verdict(&key, with_noise), Ok(false));
}

#[test]
fn classifier_end_to_end_over_recorded_payloads() {
    let query = "What's the weather like today?".to_string();
    let response = "I'm not sure, please check online.".to_string();
    let request = is_satisfactory_request(&query, &response);
    let key = "satisfactory".to_string();

    let mut outcomes = vec![ok("{\"satisfactory\": true, \"is_valid_json_response\": true}")];
    while outcomes.len() < 10 {
        outcomes.push(ok("{}"));
    }
    let (outcome, calls) = run_extraction(&request.schema, &outcomes);
    assert_eq!(calls, 1);
    assert_eq!(classifier_verdict(&key, outcome), Ok(true));

    let noisy: Vec<Result<String, AdapterError>> = (0..10).map(|_| ok("{}")).collect();
    let (outcome, calls) = run_extraction(&request.schema, &noisy);
    assert_eq!(calls, 10);
    assert_eq!(classifier_verdict(&key, outcome), Ok(false));
}
