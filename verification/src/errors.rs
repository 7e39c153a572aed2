//! Error taxonomy of the schema core.
//!
//! Three kinds are kept apart end to end: client faults (malformed or
//! structurally invalid wire input), internal faults (a collaborator failed),
//! and not-found (a referenced namespace, graph or version is absent). The
//! conversion layer itself only ever raises client-fault-shaped errors; it
//! has no internal state to fail on.

use vstd::prelude::*;

verus! {

/// Status reported for a client fault: the submission itself is invalid.
pub const STATUS_BAD_REQUEST: u16 = 400;

/// Status reported when a referenced namespace, graph or version is absent.
pub const STATUS_NOT_FOUND: u16 = 404;

/// Status reported for an internal fault in a collaborator.
pub const STATUS_INTERNAL_ERROR: u16 = 500;

/// A structural fault found while translating a wire submission into the
/// internal model. Every variant is a client fault: the submission is
/// rejected, never retried.
#[derive(Clone, Debug, PartialEq, Eq)]
pub enum SchemaError {
    /// A node's wire encoding carried a tag that matches none of the known
    /// variants; the tag is kept for the rejection message.
    MalformedNode(String),
    /// A node's declared name differs from the key under which it was
    /// submitted; the offending key is kept for the rejection message.
    NodeNameMismatch(String),
}

/// An error as reported at the API boundary: a status code that encodes the
/// kind (client fault, not-found, internal fault) and an explanatory message.
#[derive(Clone, Debug)]
pub struct IndexifyAPIError {
    status_code: u16,
    message: String,
}

impl IndexifyAPIError {
    /// The status code the error reports.
    pub closed spec fn status_spec(self) -> u16 {
        self.status_code
    }

    /// The message the error reports.
    pub closed spec fn message_spec(self) -> Seq<char> {
        self.message@
    }

    pub fn new(status_code: u16, message: &str) -> (r: Self)
        ensures
            r.status_spec() == status_code,
            r.message_spec() == message@,
    {
        Self { status_code, message: message.to_owned() }
    }

    /// An internal fault: a collaborator failed; the caller may retry.
    pub fn internal_error_str(e: &str) -> (r: Self)
        ensures
            r.status_spec() == STATUS_INTERNAL_ERROR,
            r.message_spec() == e@,
    {
        Self::new(STATUS_INTERNAL_ERROR, e)
    }

    /// A referenced namespace, graph or version is absent.
    pub fn not_found(message: &str) -> (r: Self)
        ensures
            r.status_spec() == STATUS_NOT_FOUND,
            r.message_spec() == message@,
    {
        Self::new(STATUS_NOT_FOUND, message)
    }

    /// A client fault: the submission is invalid and is not retried.
    pub fn bad_request(message: &str) -> (r: Self)
        ensures
            r.status_spec() == STATUS_BAD_REQUEST,
            r.message_spec() == message@,
    {
        Self::new(STATUS_BAD_REQUEST, message)
    }

    pub fn status_code(&self) -> (r: u16)
        ensures
            r == self.status_spec(),
    {
        self.status_code
    }

    pub fn message(&self) -> (r: &String)
        ensures
            r@ == self.message_spec(),
    {
        &self.message
    }
}

impl SchemaError {
    /// The key or tag the fault was found at.
    pub open spec fn subject_spec(self) -> Seq<char> {
        match self {
            SchemaError::MalformedNode(tag) => tag@,
            SchemaError::NodeNameMismatch(key) => key@,
        }
    }

    /// Every schema fault is a client fault: it surfaces as a rejection,
    /// never as an internal fault and never silently downgraded.
    pub fn to_api_error(&self) -> (r: IndexifyAPIError)
        ensures
            r.status_spec() == STATUS_BAD_REQUEST,
            r.message_spec() == self.subject_spec(),
    {
        match self {
            SchemaError::MalformedNode(tag) => IndexifyAPIError::bad_request(tag.as_str()),
            SchemaError::NodeNameMismatch(key) => IndexifyAPIError::bad_request(key.as_str()),
        }
    }
}

} // verus!
