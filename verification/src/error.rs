//! Error types of the runtime and of the middleware layer.

use vstd::prelude::*;
use vstd::std_specs::convert::FromSpecImpl;

verus! {

/// `prost::DecodeError`, the failure of decoding a protobuf payload. Declared opaque: values
/// are only carried inside `RuntimeError::Decode`; nothing is claimed of their contents.
#[verifier::external_type_specification]
#[verifier::external_body]
pub struct ExDecodeError(prost::DecodeError);

/// `prost::EncodeError`, the failure of encoding a protobuf payload. Declared opaque: values
/// are only carried inside `RuntimeError::Encode`; nothing is claimed of their contents.
#[verifier::external_type_specification]
#[verifier::external_body]
pub struct ExEncodeError(prost::EncodeError);

/// Middleware-level failure, carrying a human-readable message.
#[derive(Debug, Clone, PartialEq, Eq)]
pub enum MwError {
    Message(String),
}

impl MwError {
    /// An error whose message is `text`.
    pub fn message(text: &str) -> (r: MwError)
        ensures
            r matches MwError::Message(m) && m@ == text@,
    {
        MwError::Message(text.to_owned())
    }

    /// The error's message text.
    pub fn text(&self) -> (r: &String)
        ensures
            self matches MwError::Message(m) && r == m,
    {
        match self {
            MwError::Message(m) => m,
        }
    }
}

impl From<String> for MwError {
    fn from(value: String) -> (r: MwError) {
        MwError::Message(value)
    }
}

impl FromSpecImpl<String> for MwError {
    open spec fn obeys_from_spec() -> bool {
        true
    }

    open spec fn from_spec(v: String) -> MwError {
        MwError::Message(v)
    }
}

/// Failure reported by the runtime's public API.
#[derive(Debug, PartialEq, Eq)]
pub enum RuntimeError {
    /// A runtime or middleware failure, described by a message.
    Message(String),
    /// A protobuf payload could not be decoded.
    Decode(prost::DecodeError),
    /// A protobuf payload could not be encoded.
    Encode(prost::EncodeError),
}

impl RuntimeError {
    /// A runtime error whose message is `text`.
    pub fn message(text: &str) -> (r: RuntimeError)
        ensures
            r matches RuntimeError::Message(m) && m@ == text@,
    {
        RuntimeError::Message(text.to_owned())
    }

    /// Whether this error carries exactly the message `text`.
    pub open spec fn has_message(self, text: Seq<char>) -> bool {
        self matches RuntimeError::Message(m) && m@ == text
    }
}

impl From<String> for RuntimeError {
    fn from(value: String) -> (r: RuntimeError) {
        RuntimeError::Message(value)
    }
}

impl FromSpecImpl<String> for RuntimeError {
    open spec fn obeys_from_spec() -> bool {
        true
    }

    open spec fn from_spec(v: String) -> RuntimeError {
        RuntimeError::Message(v)
    }
}

/// A middleware failure surfaces as a runtime error with the same message.
impl From<MwError> for RuntimeError {
    fn from(value: MwError) -> (r: RuntimeError) {
        match value {
            MwError::Message(m) => RuntimeError::Message(m),
        }
    }
}

impl FromSpecImpl<MwError> for RuntimeError {
    open spec fn obeys_from_spec() -> bool {
        true
    }

    open spec fn from_spec(v: MwError) -> RuntimeError {
        match v {
            MwError::Message(m) => RuntimeError::Message(m),
        }
    }
}

impl From<prost::DecodeError> for RuntimeError {
    fn from(value: prost::DecodeError) -> (r: RuntimeError) {
        RuntimeError::Decode(value)
    }
}

impl FromSpecImpl<prost::DecodeError> for RuntimeError {
    open spec fn obeys_from_spec() -> bool {
        true
    }

    open spec fn from_spec(v: prost::DecodeError) -> RuntimeError {
        RuntimeError::Decode(v)
    }
}

impl From<prost::EncodeError> for RuntimeError {
    fn from(value: prost::EncodeError) -> (r: RuntimeError) {
        RuntimeError::Encode(value)
    }
}

impl FromSpecImpl<prost::EncodeError> for RuntimeError {
    open spec fn obeys_from_spec() -> bool {
        true
    }

    open spec fn from_spec(v: prost::EncodeError) -> RuntimeError {
        RuntimeError::Encode(v)
    }
}

} // verus!
