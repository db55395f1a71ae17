//! The error taxonomy surfaced to callers.
//!
//! A failed request is always one of a closed set of variants, so callers can
//! branch exhaustively: the service spoke (`ErrorResponse`), the service or an
//! intermediary answered something unreadable (`MalformedErrorResponse`), the
//! request never completed (`SendRequest`, `LoadResponseBytes`), or a success
//! body did not match the expected schema (`ParseResponse`).

use vstd::prelude::*;

verus! {

use crate::types::ErrorResponse;

/// How a single request failed.
#[derive(Debug)]
pub enum RequestError {
    /// The request could not be sent; carries the transport's description.
    SendRequest(String),
    /// The response body could not be read; carries the transport's description.
    LoadResponseBytes(String),
    /// The service answered with an error status and a well-formed error envelope.
    ErrorResponse { status: u16, error: ErrorResponse, headers: Vec<(String, String)> },
    /// The service answered with an error status but the body is not the
    /// expected envelope; the raw text is kept for diagnostics.
    MalformedErrorResponse { status: u16, body: String, headers: Vec<(String, String)> },
    /// A success status whose body failed to decode into the expected schema.
    ParseResponse,
}

/// Everything a client operation can fail with.
#[derive(Debug)]
pub enum FoxgloveApiClientError {
    Request(RequestError),
    /// The client itself could not be constructed; carries the transport's description.
    BuildClient(String),
    /// The operation needs a device token and none was configured.
    NoToken(),
}

/// The HTTP status carried by an error, where the service answered at all.
pub open spec fn status_code_spec(e: &FoxgloveApiClientError) -> Option<u16> {
    match e {
        FoxgloveApiClientError::Request(
            RequestError::ErrorResponse { status, .. },
        ) => Some(*status),
        FoxgloveApiClientError::Request(
            RequestError::MalformedErrorResponse { status, .. },
        ) => Some(*status),
        _ => None,
    }
}

impl FoxgloveApiClientError {
    /// The status of the error response, where the service answered with one;
    /// `None` for failures that carry no status.
    pub fn status_code(&self) -> (r: Option<u16>)
        ensures
            r == status_code_spec(self),
    {
        match self {
            FoxgloveApiClientError::Request(RequestError::ErrorResponse { status, .. }) => Some(
                *status,
            ),
            FoxgloveApiClientError::Request(
                RequestError::MalformedErrorResponse { status, .. },
            ) => Some(*status),
            _ => None,
        }
    }
}

} // verus!
