//! The closed error taxonomy and the classifier that maps an HTTP outcome
//! onto it.
//!
//! A failed call is tagged with exactly one kind: validation failure (422),
//! malformed request (400), server fault (500), any other non-2xx status
//! (`Unknown`), a transport failure (connection error or timeout), or a
//! success body that did not match the expected schema (`Decode`).

use vstd::prelude::*;
use vstd::string::*;

use crate::text::{dec_str, u64_to_string};

verus! {

/// Classified outcome of a failed call. The HTTP-level variants carry the
/// status received, the serialized outgoing request, and the response body,
/// enough to reproduce the failing call for diagnosis.
#[derive(Debug, Clone)]
pub enum LectoError {
    /// Status 422: the service rejected the payload as semantically invalid.
    UnprocessableEntity { status: u16, request: String, response: String },
    /// Status 400: the request itself was malformed.
    BadRequest { status: u16, request: String, response: String },
    /// Status 500: the service failed.
    InternalServerError { status: u16, request: String, response: String },
    /// Any other non-2xx status: a catch-all, never a silent failure.
    Unknown { status: u16, request: String, response: String },
    /// Connection error or timeout; the only kind that is ever retried.
    Transport { detail: String },
    /// A 2xx body that did not decode as the expected record type.
    Decode { detail: String },
}

/// A transport-level success: some HTTP status was received, with a body.
#[derive(Debug, Clone)]
pub struct RawResponse {
    pub status: u16,
    pub body: String,
}

/// Whether a status counts as success: the caller then decodes the body.
pub open spec fn is_success_status(status: u16) -> bool {
    200 <= status < 300
}

/// The one classified error owed for a non-2xx status.
pub open spec fn classify_spec(status: u16, request: String, response: String) -> LectoError {
    if status == 422 {
        (LectoError::UnprocessableEntity { status, request, response })
    } else if status == 400 {
        (LectoError::BadRequest { status, request, response })
    } else if status == 500 {
        (LectoError::InternalServerError { status, request, response })
    } else {
        (LectoError::Unknown { status, request, response })
    }
}

/// Classifies one HTTP outcome: a 2xx status hands the body through unchanged
/// for decoding; every other status yields exactly the error of its kind,
/// carrying the status received, the serialized request, and the body.
pub fn handle_response(request: String, status: u16, body: String) -> (r: Result<
    String,
    LectoError,
>)
    ensures
        is_success_status(status) ==> r == Ok::<String, LectoError>(body),
        !is_success_status(status) ==> r == Err::<String, LectoError>(
            classify_spec(status, request, body),
        ),
{
    if status >= 200 && status < 300 {
        Ok(body)
    } else if status == 422 {
        Err(LectoError::UnprocessableEntity { status, request, response: body })
    } else if status == 400 {
        Err(LectoError::BadRequest { status, request, response: body })
    } else if status == 500 {
        Err(LectoError::InternalServerError { status, request, response: body })
    } else {
        Err(LectoError::Unknown { status, request, response: body })
    }
}

impl LectoError {
    /// The HTTP status embedded in an HTTP-level error, if this is one.
    pub open spec fn spec_status(&self) -> Option<u16> {
        match self {
            LectoError::UnprocessableEntity { status, .. } => Some(*status),
            LectoError::BadRequest { status, .. } => Some(*status),
            LectoError::InternalServerError { status, .. } => Some(*status),
            LectoError::Unknown { status, .. } => Some(*status),
            LectoError::Transport { .. } => None,
            LectoError::Decode { .. } => None,
        }
    }

    /// The HTTP status this error embeds, where it is HTTP-level.
    pub fn status(&self) -> (r: Option<u16>)
        ensures
            r == self.spec_status(),
    {
        match self {
            LectoError::UnprocessableEntity { status, .. } => Some(*status),
            LectoError::BadRequest { status, .. } => Some(*status),
            LectoError::InternalServerError { status, .. } => Some(*status),
            LectoError::Unknown { status, .. } => Some(*status),
            LectoError::Transport { .. } => None,
            LectoError::Decode { .. } => None,
        }
    }

    /// What `describe` returns, over the error's fields.
    pub open spec fn describe_spec(&self) -> Seq<char> {
        match self {
            LectoError::UnprocessableEntity { status, response, .. } => "Status: "@ + dec_str(
                *status as nat,
            ) + " Res: "@ + response@,
            LectoError::BadRequest { status, response, .. } => "Status: "@ + dec_str(
                *status as nat,
            ) + " Res: "@ + response@,
            LectoError::InternalServerError { status, response, .. } => "Status: "@ + dec_str(
                *status as nat,
            ) + " Res: "@ + response@,
            LectoError::Unknown { status, response, .. } => "Status: "@ + dec_str(*status as nat)
                + " Res: "@ + response@,
            LectoError::Transport { detail } => "Transport error: "@ + detail@,
            LectoError::Decode { detail } => "Decode error: "@ + detail@,
        }
    }

    /// One diagnostic line for this error: the status and response body for
    /// HTTP-level kinds, the detail for the others.
    pub fn describe(&self) -> (r: String)
        ensures
            r@ == self.describe_spec(),
    {
        match self {
            LectoError::UnprocessableEntity { status, response, .. } => describe_http(
                *status,
                response,
            ),
            LectoError::BadRequest { status, response, .. } => describe_http(*status, response),
            LectoError::InternalServerError { status, response, .. } => describe_http(
                *status,
                response,
            ),
            LectoError::Unknown { status, response, .. } => describe_http(*status, response),
            LectoError::Transport { detail } => {
                let mut r = String::new();
                r.append("Transport error: ");
                r.append(detail.as_str());
                proof {
                    assert(r@ =~= "Transport error: "@ + detail@);
                }
                r
            },
            LectoError::Decode { detail } => {
                let mut r = String::new();
                r.append("Decode error: ");
                r.append(detail.as_str());
                proof {
                    assert(r@ =~= "Decode error: "@ + detail@);
                }
                r
            },
        }
    }
}

/// The shared diagnostic line of the four HTTP-level kinds.
fn describe_http(status: u16, response: &String) -> (r: String)
    ensures
        r@ == "Status: "@ + dec_str(status as nat) + " Res: "@ + response@,
{
    let mut r = String::new();
    r.append("Status: ");
    let num = u64_to_string(status as u64);
    r.append(num.as_str());
    r.append(" Res: ");
    r.append(response.as_str());
    proof {
        assert(r@ =~= "Status: "@ + dec_str(status as nat) + " Res: "@ + response@);
    }
    r
}

} // verus!
