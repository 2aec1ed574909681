use vstd::prelude::*;

use crate::json::JsonValue;
use crate::schema::{base_rep, generate_schema, schema_json_rep, schema_to_json, strict, strictified, SchemaNode};
use crate::shape::TargetShape;
use crate::text::{schema_name_for, schema_name_spec};

verus! {

/// One role-tagged message of the outbound request.
pub open spec fn message_rep(role: Seq<char>, content: Seq<char>, m: JsonValue) -> bool {
    &&& m matches JsonValue::Object(e)
    &&& e@.len() == 2
    &&& e@[0].0@ == "role"@ && (e@[0].1 matches JsonValue::Text(t) && t@ == role)
    &&& e@[1].0@ == "content"@ && (e@[1].1 matches JsonValue::Text(c) && c@ == content)
}

/// The ordered message list: the system message first, if one is
/// configured, then the single user message.
pub open spec fn messages_rep(system: Option<String>, prompt: Seq<char>, ms: Seq<JsonValue>) -> bool {
    match system {
        None => ms.len() == 1 && message_rep("user"@, prompt, ms[0]),
        Some(sys) => ms.len() == 2 && message_rep("system"@, sys@, ms[0]) && message_rep(
            "user"@,
            prompt,
            ms[1],
        ),
    }
}

/// The `json_schema` member of the response format: the schema name, the
/// strict flag set, and the schema document itself.
pub open spec fn json_schema_rep(name: Seq<char>, schema: JsonValue, v: JsonValue) -> bool {
    &&& v matches JsonValue::Object(e)
    &&& e@.len() == 3
    &&& e@[0].0@ == "name"@ && (e@[0].1 matches JsonValue::Text(n) && n@ == name)
    &&& e@[1].0@ == "strict"@ && e@[1].1 == JsonValue::Boolean(true)
    &&& e@[2].0@ == "schema"@ && e@[2].1 == schema
}

/// The `response_format` member: a `json_schema` format carrying the
/// named strict schema.
pub open spec fn response_format_rep(name: Seq<char>, schema: JsonValue, v: JsonValue) -> bool {
    &&& v matches JsonValue::Object(e)
    &&& e@.len() == 2
    &&& e@[0].0@ == "type"@ && (e@[0].1 matches JsonValue::Text(t) && t@ == "json_schema"@)
    &&& e@[1].0@ == "json_schema"@ && json_schema_rep(name, schema, e@[1].1)
}

/// The whole outbound request body: the model identifier, the ordered
/// message list, and the response format.
pub open spec fn request_rep(
    system: Option<String>,
    model: Seq<char>,
    prompt: Seq<char>,
    name: Seq<char>,
    schema: JsonValue,
    r: JsonValue,
) -> bool {
    &&& r matches JsonValue::Object(top)
    &&& top@.len() == 3
    &&& top@[0].0@ == "model"@ && (top@[0].1 matches JsonValue::Text(m) && m@ == model)
    &&& top@[1].0@ == "messages"@ && (top@[1].1 matches JsonValue::Array(ms) && messages_rep(
        system,
        prompt,
        ms@,
    ))
    &&& top@[2].0@ == "response_format"@ && response_format_rep(name, schema, top@[2].1)
}

/// The client's per-call configuration: endpoint, model, credential, and
/// an optional system instruction. It holds no per-call state; every call
/// builds its request and reads its response from scratch.
#[derive(Debug, PartialEq, Eq)]
pub struct OpenAiClient {
    pub endpoint: String,
    pub model: String,
    pub api_key: String,
    pub system_role: Option<String>,
}

fn text_member(key: &str, value: String) -> (r: (String, JsonValue))
    ensures
        r.0@ == key@,
        r.1 matches JsonValue::Text(t) && t == value,
{
    (key.to_owned(), JsonValue::Text(value))
}

fn message_object(role: &str, content: String) -> (r: JsonValue)
    ensures
        message_rep(role@, content@, r),
{
    let mut e: Vec<(String, JsonValue)> = Vec::new();
    e.push(text_member("role", role.to_owned()));
    e.push(text_member("content", content));
    JsonValue::Object(e)
}

impl OpenAiClient {
    /// A client for the given endpoint, model and credential, with no
    /// system instruction configured.
    pub fn new(endpoint: String, model: String, api_key: String) -> (r: Self)
        ensures
            r.endpoint == endpoint,
            r.model == model,
            r.api_key == api_key,
            r.system_role is None,
    {
        OpenAiClient { endpoint, model, api_key, system_role: None }
    }

    /// The same client with a system instruction configured; the system
    /// message then leads every request's message list.
    pub fn with_system_role(self, role: String) -> (r: Self)
        ensures
            r.endpoint == self.endpoint,
            r.model == self.model,
            r.api_key == self.api_key,
            r.system_role == Some(role),
    {
        OpenAiClient { system_role: Some(role), ..self }
    }

    /// Builds the outbound request body for one prompt: the model
    /// identifier, the message list (system message first if configured),
    /// and the response format naming the strict schema.
    pub fn build_request_body(
        &self,
        user_prompt: &str,
        schema_name: &str,
        schema_json: JsonValue,
    ) -> (r: JsonValue)
        ensures
            request_rep(
                self.system_role,
                self.model@,
                user_prompt@,
                schema_name@,
                schema_json,
                r,
            ),
    {
        let mut messages: Vec<JsonValue> = Vec::new();
        match &self.system_role {
            Some(sys) => {
                messages.push(message_object("system", sys.clone()));
            },
            None => {},
        }
        messages.push(message_object("user", user_prompt.to_owned()));

        let mut json_schema: Vec<(String, JsonValue)> = Vec::new();
        json_schema.push(text_member("name", schema_name.to_owned()));
        json_schema.push(("strict".to_owned(), JsonValue::Boolean(true)));
        json_schema.push(("schema".to_owned(), schema_json));

        let mut response_format: Vec<(String, JsonValue)> = Vec::new();
        response_format.push(text_member("type", "json_schema".to_owned()));
        response_format.push(("json_schema".to_owned(), JsonValue::Object(json_schema)));

        let mut top: Vec<(String, JsonValue)> = Vec::new();
        top.push(text_member("model", self.model.clone()));
        top.push(("messages".to_owned(), JsonValue::Array(messages)));
        top.push(("response_format".to_owned(), JsonValue::Object(response_format)));
        JsonValue::Object(top)
    }

    /// The whole outbound side of one call: compiles the shape into its
    /// strict schema, renders it, derives the schema name from the given
    /// type name, and builds the request body around the prompt.
    pub fn prepare_request(&self, user_prompt: &str, shape_name: &str, shape: &TargetShape) -> (r:
        JsonValue)
        ensures
            exists|sj: JsonValue, n: SchemaNode|
                #![trigger schema_json_rep(n, sj)]
                {
                    &&& request_rep(
                        self.system_role,
                        self.model@,
                        user_prompt@,
                        schema_name_spec(shape_name@),
                        sj,
                        r,
                    )
                    &&& schema_json_rep(n, sj)
                    &&& strict(n)
                    &&& exists|b: SchemaNode| #[trigger] base_rep(*shape, b) && strictified(b, n)
                },
    {
        let schema = generate_schema(shape);
        let ghost n0 = schema;
        let schema_json = schema_to_json(&schema);
        let ghost sj0 = schema_json;
        let name = schema_name_for(shape_name);
        let body = self.build_request_body(user_prompt, name.as_str(), schema_json);
        proof {
            assert(request_rep(
                self.system_role,
                self.model@,
                user_prompt@,
                schema_name_spec(shape_name@),
                sj0,
                body,
            ) && schema_json_rep(n0, sj0) && strict(n0));
        }
        body
    }
}

} // verus!
