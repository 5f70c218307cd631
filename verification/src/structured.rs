//! Payload and response shapes of the structured-generation backend — the
//! function-calling flavour of the chat-completion API — and the rules that
//! build a request and pick the payload out of a response.
//!
//! Argument and context values stay structured here; the driver that owns
//! the HTTP traffic renders them to JSON text at its boundary.

use vstd::prelude::*;
use vstd::string::StringExecFns;
use crate::errors::AdapterError;
use crate::json::JsonValue;
use crate::schema::{contains_name, contains_name_spec, FieldType, PropertyDescriptor};

verus! {

/// A function call echoed into the conversation: the function's name and
/// the argument pairs it was called with.
#[derive(Debug, PartialEq, Eq)]
pub struct FunctionCallValue {
    pub name: String,
    pub arguments: Vec<(String, JsonValue)>,
}

/// What a message's content slot holds: plain text, or argument pairs the
/// driver renders to JSON text on the wire.
#[derive(Debug, PartialEq, Eq)]
pub enum MessageContent {
    Text(String),
    Arguments(Vec<(String, JsonValue)>),
}

/// One chat message of a structured-generation request.
#[derive(Debug, PartialEq, Eq)]
pub struct OpenAIPayloadMessage {
    pub role: String,
    pub name: Option<String>,
    pub content: Option<MessageContent>,
    pub function_call: Option<FunctionCallValue>,
}

impl OpenAIPayloadMessage {
    /// A message with the given role and slots.
    pub fn new(
        role: String,
        content: Option<MessageContent>,
        function_call: Option<FunctionCallValue>,
        name: Option<String>,
    ) -> (m: Self)
        ensures
            m.role == role,
            m.content == content,
            m.function_call == function_call,
            m.name == name,
    {
        OpenAIPayloadMessage { role, content, function_call, name }
    }
}

pub type OpenAIPayloadMessages = Vec<OpenAIPayloadMessage>;

/// The parameter block a published function declares.
#[derive(Debug, PartialEq, Eq)]
pub struct OpenAIFunctionParameter {
    pub param_type: String,
    pub properties: Vec<PropertyDescriptor>,
    pub required: Vec<String>,
}

/// The function a request publishes to the backend.
#[derive(Debug, PartialEq, Eq)]
pub struct OpenAIFunctionDetails {
    pub name: String,
    pub description: String,
    pub parameters: OpenAIFunctionParameter,
}

/// One tool of a request: a published function.
#[derive(Debug, PartialEq, Eq)]
pub struct OpenAIFunction {
    pub tool_type: String,
    pub function: OpenAIFunctionDetails,
}

/// A whole structured-generation request.
#[derive(Debug, PartialEq, Eq)]
pub struct OpenAIFunctionPayload {
    pub model: String,
    pub messages: OpenAIPayloadMessages,
    pub tools: Vec<OpenAIFunction>,
    pub tool_choice: String,
}

/// The caller's property descriptors with any one named
/// `is_valid_json_response` taken out, from position `i` on, in order.
pub open spec fn without_valid_flag_from(props: Seq<PropertyDescriptor>, i: int) -> Seq<
    PropertyDescriptor,
>
    decreases props.len() - i,
{
    if i < 0 || i >= props.len() {
        Seq::empty()
    } else if props[i].name@ == "is_valid_json_response"@ {
        without_valid_flag_from(props, i + 1)
    } else {
        seq![props[i]] + without_valid_flag_from(props, i + 1)
    }
}

/// The caller's property descriptors with any one named
/// `is_valid_json_response` taken out.
pub open spec fn without_valid_flag(props: Seq<PropertyDescriptor>) -> Seq<PropertyDescriptor> {
    without_valid_flag_from(props, 0)
}

impl OpenAIFunctionPayload {
    /// Builds the whole structured-generation request.
    ///
    /// The fixed boolean property `is_valid_json_response` is merged into
    /// the published properties — a caller's descriptor of that name gives
    /// way to the fixed one — and its name joins the required list when
    /// absent.  The conversation is three fixed messages: the user query
    /// wrapped in the standing extraction prompt, an assistant turn echoing
    /// the function call with its arguments, and a function turn carrying
    /// the same arguments as content.
    pub fn new(
        model: String,
        user_query: String,
        function_name: String,
        function_description: String,
        properties: Vec<PropertyDescriptor>,
        required: Vec<String>,
        function_call_arguments: Vec<(String, JsonValue)>,
    ) -> (p: Self)
        ensures
            p.model == model,
            p.tool_choice@ == "auto"@,
            p.tools@.len() == 1,
            p.tools@[0].tool_type@ == "function"@,
            p.tools@[0].function.name == function_name,
            p.tools@[0].function.description == function_description,
            p.tools@[0].function.parameters.param_type@ == "object"@,
            ({
                let props_out = p.tools@[0].function.parameters.properties@;
                let kept = without_valid_flag(properties@);
                &&& props_out.len() == kept.len() + 1
                &&& (forall|i: int| 0 <= i < kept.len() ==> props_out[i] == kept[i])
                &&& props_out.last().name@ == "is_valid_json_response"@
                &&& props_out.last().field_type == FieldType::Boolean
                &&& props_out.last().description@ == "Indicates if the response is valid JSON."@
            }),
            ({
                let req_out = p.tools@[0].function.parameters.required@;
                &&& (contains_name_spec(required@, "is_valid_json_response"@) ==> req_out
                    == required@)
                &&& (!contains_name_spec(required@, "is_valid_json_response"@) ==> {
                    &&& req_out.len() == required@.len() + 1
                    &&& (forall|i: int| 0 <= i < required@.len() ==> req_out[i] == required@[i])
                    &&& req_out.last()@ == "is_valid_json_response"@
                })
            }),
            p.messages@.len() == 3,
            p.messages@[0].role@ == "user"@,
            p.messages@[0].name is None,
            p.messages@[0].function_call is None,
            p.messages@[0].content matches Some(MessageContent::Text(t)) && t@
                == "Respond to the following query in perfect json: "@ + user_query@,
            p.messages@[1].role@ == "assistant"@,
            p.messages@[1].name is None,
            p.messages@[1].content is None,
            p.messages@[1].function_call matches Some(fc) && fc.name == function_name
                && fc.arguments@ == function_call_arguments@,
            p.messages@[2].role@ == "function"@,
            p.messages@[2].name == Some(function_name),
            p.messages@[2].function_call is None,
            p.messages@[2].content matches Some(MessageContent::Arguments(args)) && args@
                == function_call_arguments@,
    {
        let flag_name: String = "is_valid_json_response".to_owned();

        let mut kept: Vec<PropertyDescriptor> = Vec::new();
        let n: usize = properties.len();
        let mut i: usize = 0;
        while i < n
            invariant
                i <= n,
                n == properties@.len(),
                flag_name@ == "is_valid_json_response"@,
                kept@ + without_valid_flag_from(properties@, i as int) == without_valid_flag(
                    properties@,
                ),
            decreases n - i,
        {
            if !properties[i].name.eq(&flag_name) {
                proof {
                    assert(without_valid_flag_from(properties@, i as int) == seq![
                        properties@[i as int],
                    ] + without_valid_flag_from(properties@, i as int + 1));
                    assert(kept@.push(properties@[i as int]) + without_valid_flag_from(
                        properties@,
                        i as int + 1,
                    ) =~= kept@ + without_valid_flag_from(properties@, i as int));
                }
                kept.push(properties[i].clone());
            } else {
                proof {
                    assert(without_valid_flag_from(properties@, i as int)
                        == without_valid_flag_from(properties@, i as int + 1));
                }
            }
            i = i + 1;
        }
        proof {
            assert(kept@ + without_valid_flag_from(properties@, n as int) =~= kept@);
        }
        kept.push(
            PropertyDescriptor {
                name: flag_name.clone(),
                field_type: FieldType::Boolean,
                description: "Indicates if the response is valid JSON.".to_owned(),
            },
        );

        let mut required_list: Vec<String> = required;
        if !contains_name(&required_list, &flag_name) {
            required_list.push(flag_name.clone());
        }

        let user_message = OpenAIPayloadMessage::new(
            "user".to_owned(),
            Some(
                MessageContent::Text(
                    "Respond to the following query in perfect json: ".to_owned().concat(
                        user_query.as_str(),
                    ),
                ),
            ),
            None,
            None,
        );
        let assistant_message = OpenAIPayloadMessage::new(
            "assistant".to_owned(),
            None,
            Some(
                FunctionCallValue {
                    name: function_name.clone(),
                    arguments: clone_arguments(&function_call_arguments),
                },
            ),
            None,
        );
        let function_message = OpenAIPayloadMessage::new(
            "function".to_owned(),
            Some(MessageContent::Arguments(function_call_arguments)),
            None,
            Some(function_name.clone()),
        );
        let mut messages: OpenAIPayloadMessages = Vec::new();
        messages.push(user_message);
        messages.push(assistant_message);
        messages.push(function_message);

        let parameters = OpenAIFunctionParameter {
            param_type: "object".to_owned(),
            properties: kept,
            required: required_list,
        };
        let function_details = OpenAIFunctionDetails {
            name: function_name,
            description: function_description,
            parameters,
        };
        let tool = OpenAIFunction { tool_type: "function".to_owned(), function: function_details };
        let mut tools: Vec<OpenAIFunction> = Vec::new();
        tools.push(tool);

        OpenAIFunctionPayload { model, messages, tools, tool_choice: "auto".to_owned() }
    }
}

/// A faithful copy of an argument list.
fn clone_arguments(v: &Vec<(String, JsonValue)>) -> (r: Vec<(String, JsonValue)>)
    ensures
        r@ == v@,
{
    let mut r: Vec<(String, JsonValue)> = Vec::new();
    let n: usize = v.len();
    let mut i: usize = 0;
    while i < n
        invariant
            i <= n,
            n == v@.len(),
            r@.len() == i,
            forall|j: int| 0 <= j < i ==> r@[j] == v@[j],
        decreases n - i,
    {
        r.push((v[i].0.clone(), v[i].1.clone()));
        i = i + 1;
    }
    proof {
        assert(r@ =~= v@);
    }
    r
}

/// One tool call inside a response message.
#[derive(Debug, PartialEq, Eq)]
pub struct OpenAIChatCompletionResponseChoiceMessageToolCall {
    pub id: String,
    pub call_type: String,
    pub function: FunctionCallDetails,
}

/// The function a tool call invoked, with its arguments as the JSON text
/// the backend produced.
#[derive(Debug, PartialEq, Eq)]
pub struct FunctionCallDetails {
    pub name: String,
    pub arguments: String,
}

/// The message inside one choice of a structured-generation response.
#[derive(Debug, PartialEq, Eq)]
pub struct OpenAIChatCompletionResponseChoiceMessage {
    pub content: Option<String>,
    pub tool_calls: Option<Vec<OpenAIChatCompletionResponseChoiceMessageToolCall>>,
}

/// One choice of a structured-generation response.
#[derive(Debug, PartialEq, Eq)]
pub struct OpenAIChatCompletionResponseChoice {
    pub message: OpenAIChatCompletionResponseChoiceMessage,
}

pub type OpenAIChatCompletionResponseChoices = Vec<OpenAIChatCompletionResponseChoice>;

/// A whole structured-generation response: the choice list.
#[derive(Debug, PartialEq, Eq)]
pub struct OpenAIChatCompletionResponse {
    pub choices: OpenAIChatCompletionResponseChoices,
}

/// The payload a response carries: the arguments text of the first tool
/// call of the first choice when one exists, else the first choice's plain
/// content.  A response with neither is malformed.
pub open spec fn select_spec(r: OpenAIChatCompletionResponse) -> Result<String, AdapterError> {
    if r.choices@.len() > 0 {
        let message = r.choices@[0].message;
        match message.tool_calls {
            Some(tcs) => if tcs@.len() > 0 {
                Ok(tcs@[0].function.arguments)
            } else {
                select_content_spec(message)
            },
            None => select_content_spec(message),
        }
    } else {
        Err(AdapterError::Protocol)
    }
}

/// The fallback payload of a choice without a usable tool call: its plain
/// content, when it has any.
pub open spec fn select_content_spec(m: OpenAIChatCompletionResponseChoiceMessage) -> Result<
    String,
    AdapterError,
> {
    match m.content {
        Some(c) => Ok(c),
        None => Err(AdapterError::Protocol),
    }
}

/// Decides [`select_spec`]: picks the structured payload text out of a
/// response, which the extraction engine then decodes and validates.
pub fn select_structured_payload(r: &OpenAIChatCompletionResponse) -> (res: Result<
    String,
    AdapterError,
>)
    ensures
        res == select_spec(*r),
{
    if r.choices.len() > 0 {
        let message = &r.choices[0].message;
        let from_tool: Option<String> = match &message.tool_calls {
            Some(tcs) => if tcs.len() > 0 {
                Some(tcs[0].function.arguments.clone())
            } else {
                None
            },
            None => None,
        };
        match from_tool {
            Some(args) => Ok(args),
            None => match &message.content {
                Some(c) => Ok(c.clone()),
                None => Err(AdapterError::Protocol),
            },
        }
    } else {
        Err(AdapterError::Protocol)
    }
}

} // verus!
