use openai_client::client::OpenAiClient;
use openai_client::json::{json_to_text, JsonValue};
use openai_client::review::Review;
use openai_client::schema::{generate_schema, schema_to_json};

fn parse(text: &str) -> serde_json::Value {
    serde_json::from_str(text).unwrap()
}

#[test]
fn request_body_without_system_role_has_one_message() {
    let client = OpenAiClient::new(
        "https://example.test/v1/chat/completions".to_owned(),
        "gpt-4o-2024-08-06".to_owned(),
        "SECRET-REDACTED".to_owned(),
    );
    let schema = schema_to_json(&generate_schema(&Review::shape()));
    let body = client.build_request_body("Check my sentences.", "review_response", schema);
    let v = parse(&json_to_text(&body));
    assert_eq!(v["model"], serde_json::Value::String("gpt-4o-2024-08-06".to_owned()));
    let messages = v["messages"].as_array().unwrap();
    assert_eq!(messages.len(), 1);
    assert_eq!(messages[0]["role"], serde_json::Value::String("user".to_owned()));
    assert_eq!(
        messages[0]["content"],
        serde_json::Value::String("Check my sentences.".to_owned())
    );
    assert_eq!(
        v["response_format"]["type"],
        serde_json::Value::String("json_schema".to_owned())
    );
    let js = &v["response_format"]["json_schema"];
    assert_eq!(js["name"], serde_json::Value::String("review_response".to_owned()));
    assert_eq!(js["strict"], serde_json::Value::Bool(true));
    assert_eq!(js["schema"]["additionalProperties"], serde_json::Value::Bool(false));
}

#[test]
fn request_body_with_system_role_puts_it_first() {
    let client = OpenAiClient::new(
        "https://example.test/v1/chat/completions".to_owned(),
        "gpt-4o-2024-08-06".to_owned(),
        "SECRET-REDACTED".to_owned(),
    )
    .with_system_role("You are a helpful English tutor.".to_owned());
    assert_eq!(client.system_role, Some("You are a helpful English tutor.".to_owned()));
    let schema = schema_to_json(&generate_schema(&Review::shape()));
    let body = client.build_request_body("Check this.", "review_response", schema);
    let v = parse(&json_to_text(&body));
    let messages = v["messages"].as_array().unwrap();
    assert_eq!(messages.len(), 2);
    assert_eq!(messages[0]["role"], serde_json::Value::String("system".to_owned()));
    assert_eq!(
        messages[0]["content"],
        serde_json::Value::String("You are a helpful English tutor.".to_owned())
    );
    assert_eq!(messages[1]["role"], serde_json::Value::String("user".to_owned()));
}

#[test]
fn rendered_json_is_not_the_input_handed_back() {
    let v = JsonValue::Object(vec![(
        "k".to_owned(),
        JsonValue::Array(vec![JsonValue::Boolean(true), JsonValue::Null]),
    )]);
    let text = json_to_text(&v);
    assert_eq!(text, "{\"k\":[true,null]}".to_owned());
}

#[test]
fn error_values_describe_themselves() {
    let refusal = openai_client::response::Refusal { refusal: "cannot comply".to_owned() };
    assert_eq!(refusal.describe(), "LLM refusal: cannot comply".to_owned());
    let err = openai_client::response::OpenAIError {
        error: openai_client::response::OpenAIErrorDetails { message: "invalid api key".to_owned() },
    };
    assert_eq!(err.describe(), "OpenAI Error: invalid api key".to_owned());
}

#[test]
fn prepared_request_embeds_the_named_strict_schema() {
    let client = OpenAiClient::new(
        "https://example.test/v1/chat/completions".to_owned(),
        "gpt-4o-2024-08-06".to_owned(),
        "SECRET-REDACTED".to_owned(),
    );
    let body = client.prepare_request("Check this.", "demo::Review", &Review::shape());
    let v = parse(&json_to_text(&body));
    let js = &v["response_format"]["json_schema"];
    assert_eq!(js["name"], serde_json::Value::String("demo_review_response".to_owned()));
    assert_eq!(js["strict"], serde_json::Value::Bool(true));
    assert_eq!(js["schema"]["additionalProperties"], serde_json::Value::Bool(false));
    let required = serde_json::Value::Array(vec![
        serde_json::Value::String("explanation".to_owned()),
        serde_json::Value::String("incorrect_words".to_owned()),
        serde_json::Value::String("incorrect_grammars".to_owned()),
    ]);
    assert_eq!(js["schema"]["required"], required);
}
