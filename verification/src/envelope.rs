//! The uniform result envelope handed back to the transport layer.

use vstd::prelude::*;

verus! {

/// Outcome tag, spelled `SUCCESS` / `FAILURE` on the wire.
#[derive(Clone, Copy, Debug, PartialEq, Eq, Structural)]
pub enum Status {
    Success,
    Failure,
}

impl Status {
    /// The wire spelling of this status.
    pub fn as_str(&self) -> (r: &'static str)
        ensures
            *self is Success ==> r@ == "SUCCESS"@,
            *self is Failure ==> r@ == "FAILURE"@,
    {
        match self {
            Status::Success => "SUCCESS",
            Status::Failure => "FAILURE",
        }
    }
}

/// Uniform envelope for both operations: a base64 payload (empty on failure),
/// a status, and a human-readable message.
pub struct OperationResult {
    pub payload: String,
    pub status: Status,
    pub message: String,
}

impl OperationResult {
    /// A well-formed envelope: a failure carries no payload and a non-empty
    /// diagnostic; a success carries the fixed success message.
    pub open spec fn wf(self) -> bool {
        &&& self.status is Failure ==> self.payload@.len() == 0 && self.message@.len() > 0
        &&& self.status is Success ==> self.message@ == "SUCCESS"@
    }

    /// Wraps a successful payload.
    pub fn success(payload: String) -> (r: OperationResult)
        ensures
            r.status is Success,
            r.payload@ == payload@,
            r.message@ == "SUCCESS"@,
            r.wf(),
    {
        OperationResult {
            payload,
            status: Status::Success,
            message: "SUCCESS".to_owned(),
        }
    }

    /// Wraps a failure diagnostic; the payload is left empty.
    pub fn failure(message: String) -> (r: OperationResult)
        requires
            message@.len() > 0,
        ensures
            r.status is Failure,
            r.payload@.len() == 0,
            r.message@ == message@,
            r.wf(),
    {
        OperationResult {
            payload: String::new(),
            status: Status::Failure,
            message,
        }
    }
}

} // verus!
