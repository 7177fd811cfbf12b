use vstd::prelude::*;

verus! {

/// How decoding an inbound document can fail: the document is not an
/// object of the expected shape, a tag field names no known variant, or
/// a required field is absent.
#[derive(Debug, Clone, PartialEq, Eq)]
pub enum DecodeErrorKind {
    MalformedJson,
    UnknownTag,
    MissingField,
}

/// The error taxonomy of the control layer.
///
/// `Decode` reports inbound text that does not match the protocol schema.
/// `Local` is a locally detected failure that is reported to the caller
/// as an error envelope. A broken closed-world assumption (a response
/// or event shape the protocol forbids) is no error value at all: the
/// functions that would meet one exclude it by `requires`, and the
/// shell keeps it fatal, so a protocol desynchronization is never
/// masked as an ordinary error.
#[derive(Debug, Clone, PartialEq, Eq)]
pub enum Error {
    Decode(DecodeErrorKind),
    Local(String),
}

impl Error {
    /// A locally detected, caller-reportable failure with the given message.
    pub fn create_local_error(message: &str) -> (e: Error)
        ensures
            e matches Error::Local(m) && m@ == message@,
    {
        Error::Local(message.to_owned())
    }

}

} // verus!
