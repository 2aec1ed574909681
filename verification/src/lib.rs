//! A typed client for a chat-completion API that constrains the model's
//! output with a strict JSON schema and decodes the reply back into a
//! caller-supplied target shape.
//!
//! The schema compiler forces closed objects and full requiredness at every
//! object level of the schema tree; the response decoder classifies a raw
//! reply as a success, a model refusal, or an upstream error, and accepts
//! the answer payload as a JSON-encoded string, a native object, or a
//! native array.

pub mod client;
pub mod error;
pub mod json;
pub mod response;
pub mod review;
pub mod schema;
pub mod shape;
pub mod text;
