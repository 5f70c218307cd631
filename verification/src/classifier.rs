//! The two boolean classifiers, each a fixed specialization of the
//! structured-extraction engine: does a query need live internet data, and
//! does a response satisfactorily answer its query.

use vstd::prelude::*;
use crate::engine::{run_model, EngineState, ExtractionOutcome, ATTEMPT_CEILING};
use crate::errors::AdapterError;
use crate::json::{flag_spec, lookup_spec, ExtractionResult, JsonValue};
use crate::schema::{
    conforms_spec, declared_spec, key_conforms, schema_wf, value_matches_spec, FieldType,
    PropertyDescriptor, Schema,
};

verus! {

/// Everything one structured extraction call needs: the extraction prompt,
/// the schema the response must satisfy, and the free-form context pairs the
/// backend interpolates into the prompt.
#[derive(Debug, PartialEq, Eq)]
pub struct ExtractionRequest {
    pub query: String,
    pub schema: Schema,
    pub context: Vec<(String, String)>,
}

/// A schema asking for exactly one required boolean field named `key`.
pub open spec fn single_flag_schema(schema: Schema, key: Seq<char>) -> bool {
    &&& schema.required@.len() == 1
    &&& schema.required@[0]@ == key
    &&& declared_spec(schema.properties@, key) == Some(FieldType::Boolean)
}

/// Builds the request of the is-satisfactory classifier for one
/// query/response pair: a fixed prompt and a schema requiring exactly the
/// boolean field `satisfactory`.
pub fn is_satisfactory_request(query: &String, response: &String) -> (r: ExtractionRequest)
    ensures
        r.query@ == "Does this response satisfactorily answer the question"@,
        r.schema.name@ == "check_satisfactory_response"@,
        r.schema.description@
            == "Evaluates if the response directly addresses the question with a clear and meaningful answer, avoiding generic or vague language. For example, avoid responses like 'I don't know' or 'Please check yourself'."@,
        r.schema.properties@.len() == 1,
        r.schema.properties@[0].name@ == "satisfactory"@,
        r.schema.properties@[0].field_type == FieldType::Boolean,
        r.schema.properties@[0].description@
            == "Indicates whether the response satisfactorily answers the query, providing a direct and useful answer"@,
        r.schema.required@.len() == 1,
        r.schema.required@[0]@ == "satisfactory"@,
        single_flag_schema(r.schema, "satisfactory"@),
        schema_wf(r.schema),
        r.context@.len() == 2,
        r.context@[0].0@ == "query"@ && r.context@[0].1@ == query@,
        r.context@[1].0@ == "response"@ && r.context@[1].1@ == response@,
{
    let mut properties: Vec<PropertyDescriptor> = Vec::new();
    properties.push(
        PropertyDescriptor {
            name: "satisfactory".to_owned(),
            field_type: FieldType::Boolean,
            description:
                "Indicates whether the response satisfactorily answers the query, providing a direct and useful answer".to_owned(),
        },
    );
    let mut required: Vec<String> = Vec::new();
    required.push("satisfactory".to_owned());
    let schema = Schema {
        name: "check_satisfactory_response".to_owned(),
        description:
            "Evaluates if the response directly addresses the question with a clear and meaningful answer, avoiding generic or vague language. For example, avoid responses like 'I don't know' or 'Please check yourself'.".to_owned(),
        properties,
        required,
    };
    let mut context: Vec<(String, String)> = Vec::new();
    context.push(("query".to_owned(), query.clone()));
    context.push(("response".to_owned(), response.clone()));
    ExtractionRequest {
        query: "Does this response satisfactorily answer the question".to_owned(),
        schema,
        context,
    }
}

/// Builds the request of the needs-internet classifier for one
/// query/response pair: a fixed prompt and a schema requiring exactly the
/// boolean field `needs_internet`.
pub fn needs_internet_request(query: &String, response: &String) -> (r: ExtractionRequest)
    ensures
        r.query@ == "Does this query need internet access"@,
        r.schema.name@ == "check_internet_access"@,
        r.schema.description@ == "Determines if the query's response requires internet access"@,
        r.schema.properties@.len() == 1,
        r.schema.properties@[0].name@ == "needs_internet"@,
        r.schema.properties@[0].field_type == FieldType::Boolean,
        r.schema.properties@[0].description@
            == "Indicates whether the query requires internet access"@,
        r.schema.required@.len() == 1,
        r.schema.required@[0]@ == "needs_internet"@,
        single_flag_schema(r.schema, "needs_internet"@),
        schema_wf(r.schema),
        r.context@.len() == 2,
        r.context@[0].0@ == "query"@ && r.context@[0].1@ == query@,
        r.context@[1].0@ == "response"@ && r.context@[1].1@ == response@,
{
    let mut properties: Vec<PropertyDescriptor> = Vec::new();
    properties.push(
        PropertyDescriptor {
            name: "needs_internet".to_owned(),
            field_type: FieldType::Boolean,
            description: "Indicates whether the query requires internet access".to_owned(),
        },
    );
    let mut required: Vec<String> = Vec::new();
    required.push("needs_internet".to_owned());
    let schema = Schema {
        name: "check_internet_access".to_owned(),
        description: "Determines if the query's response requires internet access".to_owned(),
        properties,
        required,
    };
    let mut context: Vec<(String, String)> = Vec::new();
    context.push(("query".to_owned(), query.clone()));
    context.push(("response".to_owned(), response.clone()));
    ExtractionRequest {
        query: "Does this query need internet access".to_owned(),
        schema,
        context,
    }
}

/// The boolean a classifier reads off an extraction outcome.  A fatal backend
/// failure propagates; an exhausted retry budget reads as `false`, exactly
/// like a conforming response whose flag is `false`.
pub open spec fn verdict_spec(key: Seq<char>, outcome: ExtractionOutcome) -> Result<
    bool,
    AdapterError,
> {
    match outcome {
        ExtractionOutcome::Success(r) => Ok(flag_spec(r.fields@, key)),
        ExtractionOutcome::Fatal(e) => Err(e),
        ExtractionOutcome::Exhausted(_) => Ok(false),
    }
}

/// Reads a classifier's boolean off how its extraction call ended.
pub fn classifier_verdict(key: &String, outcome: ExtractionOutcome) -> (r: Result<
    bool,
    AdapterError,
>)
    ensures
        r == verdict_spec(key@, outcome),
{
    match outcome {
        ExtractionOutcome::Success(res) => Ok(res.flag(key)),
        ExtractionOutcome::Fatal(e) => Err(e),
        ExtractionOutcome::Exhausted(_) => Ok(false),
    }
}

/// A response that does not conform to a schema whose single required field
/// is the boolean `key` can never read a `true` flag: the flag of such a
/// response is absent, null or non-boolean, and each of those reads `false`.
pub proof fn lemma_non_conforming_flag_false(schema: Schema, key: Seq<char>, r: ExtractionResult)
    requires
        single_flag_schema(schema, key),
        !conforms_spec(schema, r),
    ensures
        !flag_spec(r.fields@, key),
{
    if flag_spec(r.fields@, key) {
        assert(lookup_spec(r.fields@, key) == Some(JsonValue::Bool(true)));
        assert(value_matches_spec(FieldType::Boolean, JsonValue::Bool(true)));
        assert(key_conforms(schema, r.fields@, key));
        assert(forall|i: int|
            0 <= i < schema.required@.len() ==> key_conforms(
                schema,
                r.fields@,
                #[trigger] schema.required@[i]@,
            ));
        assert(conforms_spec(schema, r));
    }
}

/// When an extraction call for a single-required-boolean schema exhausts its
/// retry budget, the response it carries out — when it carries one at all —
/// reads a `false` flag.  Exhaustion is therefore observationally identical
/// to a genuine `false` classification, which is exactly how
/// [`verdict_spec`] treats it.
pub proof fn lemma_exhausted_never_reads_true(
    schema: Schema,
    state: EngineState,
    outcomes: Seq<Result<String, AdapterError>>,
    i: int,
    key: Seq<char>,
)
    requires
        single_flag_schema(schema, key),
        state.last matches Some(r) ==> !conforms_spec(schema, r),
    ensures
        run_model(schema, state, outcomes, i).0 matches ExtractionOutcome::Exhausted(l) ==> (
        l matches Some(r) ==> !flag_spec(r.fields@, key)),
    decreases ATTEMPT_CEILING - state.attempts_done,
{
    if state.attempts_done >= ATTEMPT_CEILING || i < 0 || i >= outcomes.len() {
        if let Some(r) = state.last {
            lemma_non_conforming_flag_false(schema, key, r);
        }
    } else {
        match crate::engine::engine_step_spec(schema, state, outcomes[i]) {
            crate::engine::EngineStep::Accepted(_) => {},
            crate::engine::EngineStep::Fatal(_) => {},
            crate::engine::EngineStep::Exhausted(last) => {
                if let Some(r) = last {
                    lemma_non_conforming_flag_false(schema, key, r);
                }
            },
            crate::engine::EngineStep::RetryAfterDelay(s2) => {
                lemma_exhausted_never_reads_true(schema, s2, outcomes, i + 1, key);
            },
        }
    }
}

} // verus!
