use vstd::prelude::*;

verus! {

/// The classified outcome of one request/response cycle when it does not
/// produce a decoded value. Every failure is terminal: nothing is retried
/// or swallowed, the caller decides what to do next.
#[derive(Debug, PartialEq, Eq)]
pub enum ClientError {
    /// The HTTP exchange itself failed; carries the transport's own message.
    TransportError(String),
    /// The body matched neither the success nor the error envelope, the
    /// choice list of a success envelope was empty, or a message carried
    /// neither exactly one of the answer and refusal markers.
    MalformedResponse,
    /// The body matched the error envelope; carries the upstream message.
    UpstreamApiError(String),
    /// The first choice's message was a refusal; carries the refusal text.
    ModelRefusal(String),
    /// The answer payload was not one of the three accepted physical
    /// encodings, or its content did not decode into the target shape.
    PayloadDecodeError,
}

} // verus!
