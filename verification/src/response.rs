use vstd::prelude::*;

use crate::error::ClientError;
use crate::json::{lookup, parse_json, parsed_json, spec_has_key, spec_lookup, JsonValue};
use crate::shape::{decodable, decode_value, decodes_to, TargetShape, TargetValue};
use crate::text::str_eq;

verus! {

/// The upstream error payload: the message of an error envelope.
#[derive(Debug, PartialEq, Eq)]
pub struct OpenAIErrorDetails {
    pub message: String,
}

/// The error envelope: a body of the form `{"error": {"message": ...}}`.
#[derive(Debug, PartialEq, Eq)]
pub struct OpenAIError {
    pub error: OpenAIErrorDetails,
}

/// A refusal message: the model declined and said why.
#[derive(Debug, PartialEq, Eq)]
pub struct Refusal {
    pub refusal: String,
}

/// An answer message's payload, still in its wire encoding.
#[derive(Debug, PartialEq, Eq)]
pub struct Content {
    pub content: JsonValue,
}

/// The first choice's message, told apart by which of the two mutually
/// exclusive keys its object carries.
#[derive(Debug, PartialEq, Eq)]
pub enum Message {
    Answer(Content),
    Refused(Refusal),
}

impl Refusal {
    /// The refusal as it reads when surfaced as an error.
    pub fn describe(&self) -> (r: String)
        ensures
            r@ == "LLM refusal: "@ + self.refusal@,
    {
        let mut s = "LLM refusal: ".to_owned();
        s.append(self.refusal.as_str());
        s
    }
}

impl OpenAIError {
    /// The upstream error as it reads when surfaced to the caller.
    pub fn describe(&self) -> (r: String)
        ensures
            r@ == "OpenAI Error: "@ + self.error.message@,
    {
        let mut s = "OpenAI Error: ".to_owned();
        s.append(self.error.message.as_str());
        s
    }
}

/// One choice of a success envelope; holds the raw message object.
#[derive(Debug, PartialEq, Eq)]
pub struct Choice {
    pub message: JsonValue,
}

/// The success envelope: a body with a list of choices.
#[derive(Debug, PartialEq, Eq)]
pub struct ChatGPTResponse {
    pub choices: Vec<Choice>,
}

/// The classified envelope of a reply body.
#[derive(Debug, PartialEq, Eq)]
pub enum OpenAIResponse {
    Success(ChatGPTResponse),
    Failure(OpenAIError),
}

/// One choice of the success shape: an object with a `message` member
/// that is itself an object.
pub open spec fn choice_shape(c: JsonValue) -> bool {
    &&& c is Object
    &&& spec_lookup(c->Object_0@, "message"@) matches Some(m) && m is Object
}

/// The success envelope shape: an object whose `choices` member is an
/// array of well-shaped choices.
pub open spec fn success_shape(j: JsonValue) -> bool {
    &&& j is Object
    &&& spec_lookup(j->Object_0@, "choices"@) matches Some(c) && c is Array
    &&& forall|i: int|
        0 <= i < choices_of(j).len() ==> choice_shape(#[trigger] choices_of(j)[i])
}

/// The choice list of a success-shaped body.
pub open spec fn choices_of(j: JsonValue) -> Seq<JsonValue> {
    match spec_lookup(j->Object_0@, "choices"@) {
        Some(JsonValue::Array(cs)) => cs@,
        _ => Seq::empty(),
    }
}

/// The message object of a well-shaped choice.
pub open spec fn message_of(c: JsonValue) -> JsonValue {
    match spec_lookup(c->Object_0@, "message"@) {
        Some(m) => m,
        None => JsonValue::Null,
    }
}

/// The error envelope shape: an object whose `error` member is an object
/// with a string `message`.
pub open spec fn error_shape(j: JsonValue) -> bool {
    &&& j is Object
    &&& spec_lookup(j->Object_0@, "error"@) matches Some(e) && e is Object && (spec_lookup(
        e->Object_0@,
        "message"@,
    ) matches Some(m) && m is Text)
}

/// The upstream message of an error-shaped body.
pub open spec fn error_message_of(j: JsonValue) -> String {
    match spec_lookup(j->Object_0@, "error"@) {
        Some(JsonValue::Object(ee)) => match spec_lookup(ee@, "message"@) {
            Some(JsonValue::Text(t)) => t,
            _ => vstd::pervasive::arbitrary(),
        },
        _ => vstd::pervasive::arbitrary(),
    }
}

/// A message carrying an answer: the `content` key is present and the
/// `refusal` key is not.
pub open spec fn answer_message(m: JsonValue) -> bool {
    &&& m is Object
    &&& spec_has_key(m->Object_0@, "content"@)
    &&& !spec_has_key(m->Object_0@, "refusal"@)
}

/// The raw answer payload of an answer message.
pub open spec fn answer_payload_of(m: JsonValue) -> JsonValue {
    match spec_lookup(m->Object_0@, "content"@) {
        Some(v) => v,
        None => JsonValue::Null,
    }
}

/// A message carrying a refusal: the `refusal` key is present with a
/// string value and the `content` key is not present.
pub open spec fn refusal_message(m: JsonValue) -> bool {
    &&& m is Object
    &&& !spec_has_key(m->Object_0@, "content"@)
    &&& spec_lookup(m->Object_0@, "refusal"@) matches Some(t) && t is Text
}

/// The refusal text of a refusal message.
pub open spec fn refusal_text_of(m: JsonValue) -> String {
    match spec_lookup(m->Object_0@, "refusal"@) {
        Some(JsonValue::Text(t)) => t,
        _ => vstd::pervasive::arbitrary(),
    }
}

/// What decoding an answer payload must yield: exactly the decodable
/// values succeed, and every failure is a payload decode error.
pub open spec fn decoded_outcome(
    inner: JsonValue,
    shape: TargetShape,
    r: Result<TargetValue, ClientError>,
) -> bool {
    match r {
        Ok(v) => decodable(inner, shape) && decodes_to(inner, shape, v),
        Err(e) => !decodable(inner, shape) && e == ClientError::PayloadDecodeError,
    }
}

/// What decoding a raw answer payload must yield: a JSON string is parsed
/// first, an object or array is decoded directly, and every other physical
/// encoding is a payload decode error.
pub open spec fn decode_outcome(
    payload: JsonValue,
    shape: TargetShape,
    r: Result<TargetValue, ClientError>,
) -> bool {
    match payload {
        JsonValue::Text(sp) => match parsed_json(sp@) {
            Some(inner) => decoded_outcome(inner, shape, r),
            None => r == Err::<TargetValue, ClientError>(ClientError::PayloadDecodeError),
        },
        JsonValue::Object(_) => decoded_outcome(payload, shape, r),
        JsonValue::Array(_) => decoded_outcome(payload, shape, r),
        _ => r == Err::<TargetValue, ClientError>(ClientError::PayloadDecodeError),
    }
}

/// What interpreting the first choice's message must yield.
pub open spec fn message_outcome(
    m: JsonValue,
    shape: TargetShape,
    r: Result<TargetValue, ClientError>,
) -> bool {
    if answer_message(m) {
        decode_outcome(answer_payload_of(m), shape, r)
    } else if refusal_message(m) {
        r == Err::<TargetValue, ClientError>(ClientError::ModelRefusal(refusal_text_of(m)))
    } else {
        r == Err::<TargetValue, ClientError>(ClientError::MalformedResponse)
    }
}

/// What decoding a whole classified body must yield: the success shape is
/// tried first, then the error shape; a body matching neither is malformed,
/// and so is a success envelope with an empty choice list.
pub open spec fn response_outcome(
    j: JsonValue,
    shape: TargetShape,
    r: Result<TargetValue, ClientError>,
) -> bool {
    if success_shape(j) {
        if choices_of(j).len() == 0 {
            r == Err::<TargetValue, ClientError>(ClientError::MalformedResponse)
        } else {
            message_outcome(message_of(choices_of(j)[0]), shape, r)
        }
    } else if error_shape(j) {
        r == Err::<TargetValue, ClientError>(ClientError::UpstreamApiError(error_message_of(j)))
    } else {
        r == Err::<TargetValue, ClientError>(ClientError::MalformedResponse)
    }
}

/// How a classified success envelope represents the body it came from:
/// one choice per element of the `choices` array, each holding that
/// element's message object.
pub open spec fn success_rep(j: JsonValue, resp: ChatGPTResponse) -> bool {
    &&& resp.choices@.len() == choices_of(j).len()
    &&& forall|i: int|
        0 <= i < choices_of(j).len() ==> (#[trigger] resp.choices@[i]).message == message_of(
            choices_of(j)[i],
        )
}

/// Removes and returns the value of the first member named `key`.
#[verifier::loop_isolation(false)]
fn take_value(entries: Vec<(String, JsonValue)>, key: &str) -> (r: Option<JsonValue>)
    ensures
        r == spec_lookup(entries@, key@),
{
    let ghost orig = entries@;
    let mut work = entries;
    while work.len() > 0
        invariant
            spec_lookup(orig, key@) == spec_lookup(work@, key@),
        decreases work@.len(),
    {
        let ghost before = work@;
        let (k, v) = work.remove(0);
        if str_eq(k.as_str(), key) {
            return Some(v);
        }
        proof {
            assert(work@ =~= before.skip(1));
        }
    }
    None
}

fn extract_error_message(j: &JsonValue) -> (r: Option<String>)
    ensures
        r is Some <==> error_shape(*j),
        r matches Some(m) ==> m == error_message_of(*j),
{
    match j {
        JsonValue::Object(entries) => {
            match lookup(entries, "error") {
                Some(JsonValue::Object(ee)) => {
                    match lookup(ee, "message") {
                        Some(JsonValue::Text(t)) => Some(t.clone()),
                        _ => None,
                    }
                },
                _ => None,
            }
        },
        _ => None,
    }
}

#[verifier::loop_isolation(false)]
fn is_success_shape(j: &JsonValue) -> (r: bool)
    ensures
        r == success_shape(*j),
{
    match j {
        JsonValue::Object(entries) => {
            match lookup(entries, "choices") {
                Some(JsonValue::Array(cs)) => {
                    proof {
                        assert(choices_of(*j) == cs@);
                    }
                    let mut i: usize = 0;
                    while i < cs.len()
                        invariant
                            0 <= i <= cs@.len(),
                            forall|k: int| 0 <= k < i ==> choice_shape(#[trigger] cs@[k]),
                        decreases cs@.len() - i,
                    {
                        match &cs[i] {
                            JsonValue::Object(ce) => {
                                match lookup(ce, "message") {
                                    Some(JsonValue::Object(_)) => {},
                                    _ => {
                                        proof {
                                            assert(!choice_shape(cs@[i as int]));
                                        }
                                        return false;
                                    },
                                }
                            },
                            _ => {
                                proof {
                                    assert(!choice_shape(cs@[i as int]));
                                }
                                return false;
                            },
                        }
                        i += 1;
                    }
                    true
                },
                _ => false,
            }
        },
        _ => false,
    }
}

/// Consumes a success-shaped body into its classified form; anything else
/// gives nothing back.
#[verifier::loop_isolation(false)]
fn extract_success(j: JsonValue) -> (r: Option<ChatGPTResponse>)
    requires
        success_shape(j),
    ensures
        r matches Some(resp) && success_rep(j, resp),
{
    let ghost j0 = j;
    match j {
        JsonValue::Object(entries) => {
            match take_value(entries, "choices") {
                Some(JsonValue::Array(cs)) => {
                    let ghost orig = cs@;
                    proof {
                        assert(choices_of(j0) == orig);
                    }
                    let mut work = cs;
                    let mut choices: Vec<Choice> = Vec::new();
                    while work.len() > 0
                        invariant
                            choices@.len() + work@.len() == orig.len(),
                            work@ == orig.skip(choices@.len() as int),
                            forall|k: int|
                                0 <= k < choices@.len() ==> (#[trigger] choices@[k]).message
                                    == message_of(orig[k]),
                        decreases work@.len(),
                    {
                        proof {
                            assert(work@[0] == orig[choices@.len() as int]);
                            assert(choice_shape(orig[choices@.len() as int]));
                        }
                        let ghost before = work@;
                        let c = work.remove(0);
                        proof {
                            assert(work@ =~= before.skip(1));
                        }
                        match c {
                            JsonValue::Object(ce) => {
                                match take_value(ce, "message") {
                                    Some(m) => {
                                        choices.push(Choice { message: m });
                                    },
                                    None => {
                                        return None;
                                    },
                                }
                            },
                            _ => {
                                return None;
                            },
                        }
                        proof {
                            assert(work@ =~= orig.skip(choices@.len() as int));
                        }
                    }
                    Some(ChatGPTResponse { choices })
                },
                _ => None,
            }
        },
        _ => None,
    }
}

/// Classifies a reply body: the success envelope shape is tried first,
/// then the error envelope shape; a body matching neither is a malformed
/// response.
pub fn classify_envelope(j: JsonValue) -> (r: Result<OpenAIResponse, ClientError>)
    ensures
        success_shape(j) ==> (r matches Ok(OpenAIResponse::Success(resp)) && success_rep(j, resp)),
        !success_shape(j) && error_shape(j) ==> (r matches Ok(OpenAIResponse::Failure(err))
            && err.error.message == error_message_of(j)),
        !success_shape(j) && !error_shape(j) ==> r == Err::<OpenAIResponse, ClientError>(
            ClientError::MalformedResponse,
        ),
{
    let err_msg = extract_error_message(&j);
    if is_success_shape(&j) {
        match extract_success(j) {
            Some(resp) => Ok(OpenAIResponse::Success(resp)),
            None => Err(ClientError::MalformedResponse),
        }
    } else {
        match err_msg {
            Some(msg) => Ok(
                OpenAIResponse::Failure(OpenAIError { error: OpenAIErrorDetails { message: msg } }),
            ),
            None => Err(ClientError::MalformedResponse),
        }
    }
}

/// Takes the first choice of a success envelope and tells its message
/// apart: an answer, a refusal, or — on an empty choice list or a message
/// carrying neither or both markers — a malformed response.
pub fn first_message(resp: ChatGPTResponse) -> (r: Result<Message, ClientError>)
    ensures
        resp.choices@.len() == 0 ==> r == Err::<Message, ClientError>(
            ClientError::MalformedResponse,
        ),
        resp.choices@.len() > 0 ==> {
            let m = resp.choices@[0].message;
            &&& answer_message(m) ==> (r matches Ok(Message::Answer(c)) && c.content
                == answer_payload_of(m))
            &&& refusal_message(m) ==> (r matches Ok(Message::Refused(f)) && f.refusal
                == refusal_text_of(m))
            &&& !answer_message(m) && !refusal_message(m) ==> r == Err::<Message, ClientError>(
                ClientError::MalformedResponse,
            )
        },
{
    let mut choices = resp.choices;
    if choices.len() == 0 {
        return Err(ClientError::MalformedResponse);
    }
    let first = choices.remove(0);
    match first.message {
        JsonValue::Object(entries) => {
            let has_content = lookup(&entries, "content").is_some();
            let has_refusal = lookup(&entries, "refusal").is_some();
            if has_content && !has_refusal {
                match take_value(entries, "content") {
                    Some(payload) => Ok(Message::Answer(Content { content: payload })),
                    None => Err(ClientError::MalformedResponse),
                }
            } else if has_refusal && !has_content {
                match take_value(entries, "refusal") {
                    Some(JsonValue::Text(t)) => Ok(Message::Refused(Refusal { refusal: t })),
                    _ => Err(ClientError::MalformedResponse),
                }
            } else {
                Err(ClientError::MalformedResponse)
            }
        },
        _ => Err(ClientError::MalformedResponse),
    }
}

/// Decodes the raw answer payload, accepting its three physical
/// encodings: a JSON string is parsed first, an object or an array is
/// decoded directly; anything else is a payload decode error.
pub fn decode_answer(payload: &JsonValue, shape: &TargetShape) -> (r: Result<
    TargetValue,
    ClientError,
>)
    ensures
        decode_outcome(*payload, *shape, r),
{
    match payload {
        JsonValue::Text(sp) => {
            match parse_json(sp.as_str()) {
                Some(inner) => decode_value(&inner, shape),
                None => Err(ClientError::PayloadDecodeError),
            }
        },
        JsonValue::Object(_) => decode_value(payload, shape),
        JsonValue::Array(_) => decode_value(payload, shape),
        _ => Err(ClientError::PayloadDecodeError),
    }
}

/// Interprets a classified reply: an error envelope surfaces the upstream
/// message, a refusal surfaces the refusal text, and an answer payload is
/// decoded into the target shape.
pub fn interpret_response(resp: OpenAIResponse, shape: &TargetShape) -> (r: Result<
    TargetValue,
    ClientError,
>)
    ensures
        resp matches OpenAIResponse::Failure(err) ==> r == Err::<TargetValue, ClientError>(
            ClientError::UpstreamApiError(err.error.message),
        ),
        resp matches OpenAIResponse::Success(cr) ==> {
            &&& cr.choices@.len() == 0 ==> r == Err::<TargetValue, ClientError>(
                ClientError::MalformedResponse,
            )
            &&& cr.choices@.len() > 0 ==> message_outcome(cr.choices@[0].message, *shape, r)
        },
{
    match resp {
        OpenAIResponse::Failure(err) => Err(ClientError::UpstreamApiError(err.error.message)),
        OpenAIResponse::Success(cr) => {
            match first_message(cr) {
                Err(e) => Err(e),
                Ok(Message::Answer(content)) => decode_answer(&content.content, shape),
                Ok(Message::Refused(refusal)) => Err(ClientError::ModelRefusal(refusal.refusal)),
            }
        },
    }
}

/// Decodes a raw reply body into the target shape: parse, classify the
/// envelope (success before error), take the first choice, tell answer
/// from refusal, and decode the answer payload.
pub fn decode_body(raw: &str, shape: &TargetShape) -> (r: Result<TargetValue, ClientError>)
    ensures
        match parsed_json(raw@) {
            None => r == Err::<TargetValue, ClientError>(ClientError::MalformedResponse),
            Some(j) => response_outcome(j, *shape, r),
        },
{
    match parse_json(raw) {
        None => Err(ClientError::MalformedResponse),
        Some(j) => {
            match classify_envelope(j) {
                Err(e) => Err(e),
                Ok(resp) => interpret_response(resp, shape),
            }
        },
    }
}

} // verus!
