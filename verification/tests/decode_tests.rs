use openai_client::error::ClientError;
use openai_client::json::{json_to_text, JsonValue};
use openai_client::response::decode_body;
use openai_client::review::Review;
use openai_client::shape::{decode_value, encode_value, TargetShape, TargetValue};

fn review_like_shape() -> TargetShape {
    TargetShape::ObjectOf(vec![
        ("explanation".to_owned(), TargetShape::Text),
        (
            "tags".to_owned(),
            TargetShape::OptionalOf(Box::new(TargetShape::ArrayOf(Box::new(TargetShape::Text)))),
        ),
    ])
}

fn sample_value() -> TargetValue {
    TargetValue::ObjectOf(vec![
        ("explanation".to_owned(), TargetValue::Text("ok".to_owned())),
        (
            "tags".to_owned(),
            TargetValue::ArrayOf(vec![
                TargetValue::Text("a".to_owned()),
                TargetValue::Text("b".to_owned()),
            ]),
        ),
    ])
}

#[test]
fn round_trip_native_object_form() {
    let shape = review_like_shape();
    let v = sample_value();
    let encoded = encode_value(&v);
    let decoded = decode_value(&encoded, &shape).unwrap();
    assert_eq!(decoded, sample_value());
}

#[test]
fn round_trip_native_array_form() {
    let shape = TargetShape::ArrayOf(Box::new(TargetShape::Text));
    let v = TargetValue::ArrayOf(vec![
        TargetValue::Text("x".to_owned()),
        TargetValue::Text("y".to_owned()),
    ]);
    let encoded = encode_value(&v);
    let decoded = decode_value(&encoded, &shape).unwrap();
    assert_eq!(decoded, v);
}

#[test]
fn round_trip_json_string_form() {
    let shape = review_like_shape();
    let v = sample_value();
    let encoded = encode_value(&v);
    let text = json_to_text(&encoded);
    let body = format!(
        "{{\"choices\":[{{\"message\":{{\"content\":{}}}}}]}}",
        serde_json::to_string(&text).unwrap()
    );
    let decoded = decode_body(&body, &shape).unwrap();
    assert_eq!(decoded, sample_value());
}

#[test]
fn payload_string_example_decodes_to_expected_fields() {
    let shape = review_like_shape();
    let body = r#"{"choices":[{"message":{"content":"{\"explanation\":\"ok\",\"tags\":[\"a\",\"b\"]}"}}]}"#;
    let decoded = decode_body(body, &shape).unwrap();
    assert_eq!(decoded, sample_value());
}

#[test]
fn payload_native_object_decodes_like_the_string_form() {
    let shape = review_like_shape();
    let body = r#"{"choices":[{"message":{"content":{"explanation":"ok","tags":["a","b"]}}}]}"#;
    let decoded = decode_body(body, &shape).unwrap();
    assert_eq!(decoded, sample_value());
}

#[test]
fn absent_optional_field_decodes_to_missing() {
    let shape = review_like_shape();
    let body = r#"{"choices":[{"message":{"content":{"explanation":"ok"}}}]}"#;
    let decoded = decode_body(body, &shape).unwrap();
    assert_eq!(
        decoded,
        TargetValue::ObjectOf(vec![
            ("explanation".to_owned(), TargetValue::Text("ok".to_owned())),
            ("tags".to_owned(), TargetValue::Missing),
        ])
    );
}

#[test]
fn null_optional_field_decodes_to_missing() {
    let shape = review_like_shape();
    let body = r#"{"choices":[{"message":{"content":{"explanation":"ok","tags":null}}}]}"#;
    let decoded = decode_body(body, &shape).unwrap();
    assert_eq!(
        decoded,
        TargetValue::ObjectOf(vec![
            ("explanation".to_owned(), TargetValue::Text("ok".to_owned())),
            ("tags".to_owned(), TargetValue::Missing),
        ])
    );
}

#[test]
fn message_with_both_markers_is_malformed() {
    let shape = review_like_shape();
    let body = r#"{"choices":[{"message":{"content":"{}","refusal":"no"}}]}"#;
    assert_eq!(decode_body(body, &shape), Err(ClientError::MalformedResponse));
}

#[test]
fn message_with_neither_marker_is_malformed() {
    let shape = review_like_shape();
    let body = r#"{"choices":[{"message":{"role":"assistant"}}]}"#;
    assert_eq!(decode_body(body, &shape), Err(ClientError::MalformedResponse));
}

#[test]
fn empty_choice_list_is_malformed_not_an_index_error() {
    let shape = review_like_shape();
    let body = r#"{"choices":[]}"#;
    assert_eq!(decode_body(body, &shape), Err(ClientError::MalformedResponse));
}

#[test]
fn error_envelope_carries_exact_upstream_message() {
    let shape = review_like_shape();
    let body = r#"{"error":{"message":"invalid api key"}}"#;
    assert_eq!(
        decode_body(body, &shape),
        Err(ClientError::UpstreamApiError("invalid api key".to_owned()))
    );
}

#[test]
fn refusal_message_decodes_to_model_refusal_with_exact_text() {
    let shape = review_like_shape();
    let body = r#"{"choices":[{"message":{"refusal":"cannot comply"}}]}"#;
    assert_eq!(
        decode_body(body, &shape),
        Err(ClientError::ModelRefusal("cannot comply".to_owned()))
    );
}

#[test]
fn body_matching_neither_envelope_is_malformed() {
    let shape = review_like_shape();
    assert_eq!(
        decode_body(r#"{"ok":true}"#, &shape),
        Err(ClientError::MalformedResponse)
    );
    assert_eq!(decode_body("not json at all", &shape), Err(ClientError::MalformedResponse));
}

#[test]
fn success_shape_takes_precedence_over_error_shape() {
    let shape = review_like_shape();
    let body = r#"{"choices":[{"message":{"refusal":"r"}}],"error":{"message":"m"}}"#;
    assert_eq!(decode_body(body, &shape), Err(ClientError::ModelRefusal("r".to_owned())));
}

#[test]
fn unaccepted_payload_encoding_is_a_payload_decode_error() {
    let shape = review_like_shape();
    let body = r#"{"choices":[{"message":{"content":7}}]}"#;
    assert_eq!(decode_body(body, &shape), Err(ClientError::PayloadDecodeError));
    let body2 = r#"{"choices":[{"message":{"content":true}}]}"#;
    assert_eq!(decode_body(body2, &shape), Err(ClientError::PayloadDecodeError));
}

#[test]
fn payload_content_not_matching_shape_is_a_payload_decode_error() {
    let shape = review_like_shape();
    let body = r#"{"choices":[{"message":{"content":{"explanation":5}}}]}"#;
    assert_eq!(decode_body(body, &shape), Err(ClientError::PayloadDecodeError));
    let body2 = r#"{"choices":[{"message":{"content":"not json"}}]}"#;
    assert_eq!(decode_body(body2, &shape), Err(ClientError::PayloadDecodeError));
}

#[test]
fn union_shape_decodes_at_first_matching_branch() {
    let shape = TargetShape::UnionOf(vec![TargetShape::Number, TargetShape::Text]);
    let decoded = decode_value(&JsonValue::Text("hi".to_owned()), &shape).unwrap();
    assert_eq!(decoded, TargetValue::Text("hi".to_owned()));
    assert!(decode_value(&JsonValue::Boolean(true), &shape).is_err());
}

#[test]
fn number_payloads_ride_through_opaquely() {
    let shape = TargetShape::ObjectOf(vec![("n".to_owned(), TargetShape::Number)]);
    let body = r#"{"choices":[{"message":{"content":{"n":42}}}]}"#;
    let decoded = decode_body(body, &shape).unwrap();
    let expected = TargetValue::ObjectOf(vec![(
        "n".to_owned(),
        TargetValue::Number(serde_json::Number::from(42u64)),
    )]);
    assert_eq!(decoded, expected);
}

#[test]
fn review_reads_out_of_its_decoded_value() {
    let shape = Review::shape();
    let body = r#"{"choices":[{"message":{"content":{"explanation":"two slips","incorrect_words":["foo"],"incorrect_grammars":null}}}]}"#;
    let decoded = decode_body(body, &shape).unwrap();
    let review = Review::from_value(&decoded).unwrap();
    assert_eq!(review.explanation, "two slips".to_owned());
    assert_eq!(review.incorrect_words, Some(vec!["foo".to_owned()]));
    assert_eq!(review.incorrect_grammars, None);
}

#[test]
fn transport_errors_carry_their_message() {
    let e = ClientError::TransportError("connection reset".to_owned());
    assert_eq!(e, ClientError::TransportError("connection reset".to_owned()));
    assert_ne!(e, ClientError::MalformedResponse);
}
