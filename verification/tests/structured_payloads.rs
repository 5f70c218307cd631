use saturn_core::errors::AdapterError;
use saturn_core::json::JsonValue;
use saturn_core::schema::{FieldType, PropertyDescriptor};
use saturn_core::structured::{
    select_structured_payload, FunctionCallDetails, MessageContent, OpenAIChatCompletionResponse,
    OpenAIChatCompletionResponseChoice, OpenAIChatCompletionResponseChoiceMessage,
    OpenAIChatCompletionResponseChoiceMessageToolCall, OpenAIFunctionPayload,
};

fn election_properties() -> Vec<PropertyDescriptor> {
    vec![
        PropertyDescriptor {
            name: "candidate".to_string(),
            field_type: FieldType::Text,
            description: "The name of the winning candidate".to_string(),
        },
        PropertyDescriptor {
            name: "year".to_string(),
            field_type: FieldType::Integer,
            description: "The year of the election".to_string(),
        },
    ]
}

fn election_arguments() -> Vec<(String, JsonValue)> {
    vec![(
        "election_year".to_string(),
        JsonValue::Num("2020".to_string()),
    )]
}

fn election_payload(required: Vec<String>) -> OpenAIFunctionPayload {
    OpenAIFunctionPayload::new(
        "gpt-4o".to_string(),
        "Who won the 2020 USA presidential election?".to_string(),
        "get_election_winner".to_string(),
        "Get the winner of the specified USA presidential election.".to_string(),
        election_properties(),
        required,
        election_arguments(),
    )
}

#[test]
fn payload_merges_the_valid_json_property() {
    let payload = election_payload(vec!["candidate".to_string()]);
    assert_eq!(payload.tools.len(), 1);
    let parameters = &payload.tools[0].function.parameters;
    assert_eq!(parameters.param_type, "object");
    assert_eq!(parameters.properties.len(), 3);
    assert_eq!(parameters.properties[0].name, "candidate");
    assert_eq!(parameters.properties[1].name, "year");
    let merged = &parameters.properties[2];
    assert_eq!(merged.name, "is_valid_json_response");
    assert_eq!(merged.field_type, FieldType::Boolean);
    assert_eq!(merged.description, "Indicates if the response is valid JSON.");
}

#[test]
fn payload_replaces_a_caller_descriptor_of_the_same_name() {
    let mut properties = election_properties();
    properties.insert(
        0,
        PropertyDescriptor {
            name: "is_valid_json_response".to_string(),
            field_type: FieldType::Text,
            description: "a caller's own claim".to_string(),
        },
    );
    let payload = OpenAIFunctionPayload::new(
        "gpt-4o".to_string(),
        "Who won?".to_string(),
        "get_election_winner".to_string(),
        "Get the winner.".to_string(),
        properties,
        vec!["candidate".to_string()],
        vec![],
    );
    let parameters = &payload.tools[0].function.parameters;
    assert_eq!(parameters.properties.len(), 3);
    assert_eq!(parameters.properties[0].name, "candidate");
    assert_eq!(parameters.properties[1].name, "year");
    assert_eq!(parameters.properties[2].name, "is_valid_json_response");
    assert_eq!(parameters.properties[2].field_type, FieldType::Boolean);
}

#[test]
fn payload_requires_the_valid_json_flag_when_absent() {
    let payload = election_payload(vec!["candidate".to_string(), "year".to_string()]);
    assert_eq!(
        payload.tools[0].function.parameters.required,
        vec![
            "candidate".to_string(),
            "year".to_string(),
            "is_valid_json_response".to_string(),
        ]
    );
}

#[test]
fn payload_keeps_the_required_list_when_flag_already_present() {
    let payload = election_payload(vec![
        "is_valid_json_response".to_string(),
        "candidate".to_string(),
    ]);
    assert_eq!(
        payload.tools[0].function.parameters.required,
        vec![
            "is_valid_json_response".to_string(),
            "candidate".to_string(),
        ]
    );
}

#[test]
fn payload_builds_the_three_fixed_messages() {
    let payload = election_payload(vec!["candidate".to_string()]);
    assert_eq!(payload.model, "gpt-4o");
    assert_eq!(payload.tool_choice, "auto");
    assert_eq!(payload.tools[0].tool_type, "function");
    assert_eq!(payload.tools[0].function.name, "get_election_winner");
    assert_eq!(
        payload.tools[0].function.description,
        "Get the winner of the specified USA presidential election."
    );
    assert_eq!(payload.messages.len(), 3);

    let user = &payload.messages[0];
    assert_eq!(user.role, "user");
    assert_eq!(user.name, None);
    assert!(user.function_call.is_none());
    assert_eq!(
        user.content,
        Some(MessageContent::Text(
            "Respond to the following query in perfect json: Who won the 2020 USA presidential election?"
                .to_string()
        ))
    );

    let assistant = &payload.messages[1];
    assert_eq!(assistant.role, "assistant");
    assert_eq!(assistant.name, None);
    assert_eq!(assistant.content, None);
    let call = assistant
        .function_call
        .as_ref()
        .expect("the assistant turn echoes the function call");
    assert_eq!(call.name, "get_election_winner");
    assert_eq!(call.arguments, election_arguments());

    let function = &payload.messages[2];
    assert_eq!(function.role, "function");
    assert_eq!(function.name, Some("get_election_winner".to_string()));
    assert!(function.function_call.is_none());
    assert_eq!(
        function.content,
        Some(MessageContent::Arguments(election_arguments()))
    );
}

fn tool_call_response(arguments: &str) -> OpenAIChatCompletionResponse {
    OpenAIChatCompletionResponse {
        choices: vec![OpenAIChatCompletionResponseChoice {
            message: OpenAIChatCompletionResponseChoiceMessage {
                content: Some("plain content".to_string()),
                tool_calls: Some(vec![OpenAIChatCompletionResponseChoiceMessageToolCall {
                    id: "call_1".to_string(),
                    call_type: "function".to_string(),
                    function: FunctionCallDetails {
                        name: "get_election_winner".to_string(),
                        arguments: arguments.to_string(),
                    },
                }]),
            },
        }],
    }
}

#[test]
fn selection_prefers_the_first_tool_call() {
    let response = tool_call_response("{\"candidate\": \"Joe Biden\"}");
    assert_eq!(
        select_structured_payload(&response),
        Ok("{\"candidate\": \"Joe Biden\"}".to_string())
    );
}

#[test]
fn selection_falls_back_to_content_without_tool_calls() {
    let response = OpenAIChatCompletionResponse {
        choices: vec![OpenAIChatCompletionResponseChoice {
            message: OpenAIChatCompletionResponseChoiceMessage {
                content: Some("{\"candidate\": \"Joe Biden\"}".to_string()),
                tool_calls: Some(vec![]),
            },
        }],
    };
    assert_eq!(
        select_structured_payload(&response),
        Ok("{\"candidate\": \"Joe Biden\"}".to_string())
    );
}

#[test]
fn selection_rejects_a_response_with_neither() {
    let empty_message = OpenAIChatCompletionResponse {
        choices: vec![OpenAIChatCompletionResponseChoice {
            message: OpenAIChatCompletionResponseChoiceMessage {
                content: None,
                tool_calls: None,
            },
        }],
    };
    assert_eq!(
        select_structured_payload(&empty_message),
        Err(AdapterError::Protocol)
    );
    let no_choices = OpenAIChatCompletionResponse { choices: vec![] };
    assert_eq!(
        select_structured_payload(&no_choices),
        Err(AdapterError::Protocol)
    );
}
