//! The records exchanged with the device-identity service.

use vstd::prelude::*;

verus! {

/// A short-lived pair authorizing a real-time visualization connection.
pub struct RtcCredentials {
    pub token: String,
    pub url: String,
}

impl Clone for RtcCredentials {
    fn clone(&self) -> (r: Self)
        ensures
            r == *self,
    {
        RtcCredentials { token: self.token.clone(), url: self.url.clone() }
    }
}

/// The device metadata returned by a successful "fetch device info" call.
pub struct DeviceResponse {
    pub id: String,
    pub name: String,
    pub project_id: String,
    pub retain_recordings_seconds: Option<u64>,
}

impl Clone for DeviceResponse {
    fn clone(&self) -> (r: Self)
        ensures
            r == *self,
    {
        DeviceResponse {
            id: self.id.clone(),
            name: self.name.clone(),
            project_id: self.project_id.clone(),
            retain_recordings_seconds: self.retain_recordings_seconds,
        }
    }
}

/// The service's JSON error envelope: the wire field `error` is read as the
/// logical `message`.
#[derive(Debug)]
pub struct ErrorResponse {
    pub message: String,
    pub code: Option<String>,
}

impl Clone for ErrorResponse {
    fn clone(&self) -> (r: Self)
        ensures
            r == *self,
    {
        ErrorResponse {
            message: self.message.clone(),
            code: match &self.code {
                Some(c) => Some(c.clone()),
                None => None,
            },
        }
    }
}

} // verus!
