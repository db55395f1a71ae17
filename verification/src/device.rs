//! The resolved device identity.
//!
//! A `Device` pairs the metadata a successful "fetch device info" call
//! returned with the client that made it.  The metadata is immutable from
//! then on; its id addresses every later per-device call, percent-encoded
//! into the path.

use vstd::prelude::*;

verus! {

use crate::client::{
    joined_url, remote_sessions_path, token_header, FoxgloveApiClient, Method, RequestBuilder,
};
use crate::errors::FoxgloveApiClientError;
use crate::types::DeviceResponse;
use vstd::utf8::encode_utf8;

/// A device identity resolved from the service, together with the client
/// that resolved it.
pub struct Device {
    info: DeviceResponse,
    client: FoxgloveApiClient,
}

impl Device {
    pub closed spec fn id_spec(&self) -> Seq<char> {
        self.info.id@
    }

    pub closed spec fn name_spec(&self) -> Seq<char> {
        self.info.name@
    }

    pub closed spec fn project_id_spec(&self) -> Seq<char> {
        self.info.project_id@
    }

    pub closed spec fn retain_recordings_seconds_spec(&self) -> Option<u64> {
        self.info.retain_recordings_seconds
    }

    pub closed spec fn token_spec(&self) -> Option<Seq<char>> {
        self.client.token_spec()
    }

    pub closed spec fn base_url_spec(&self) -> Seq<char> {
        self.client.base_url_spec()
    }

    pub closed spec fn user_agent_spec(&self) -> Seq<char> {
        self.client.user_agent_spec()
    }

    /// The identity invariant: a resolved device always has an id, since the
    /// id addresses every later per-device call.
    pub open spec fn wf(&self) -> bool {
        self.id_spec().len() > 0
    }

    /// Pair the metadata a successful "fetch device info" call returned with
    /// the client that made it.
    pub fn new(client: FoxgloveApiClient, info: DeviceResponse) -> (r: Self)
        requires
            info.id@.len() > 0,
        ensures
            r.wf(),
            r.id_spec() == info.id@,
            r.name_spec() == info.name@,
            r.project_id_spec() == info.project_id@,
            r.retain_recordings_seconds_spec() == info.retain_recordings_seconds,
            r.token_spec() == client.token_spec(),
            r.base_url_spec() == client.base_url_spec(),
            r.user_agent_spec() == client.user_agent_spec(),
    {
        Device { info, client }
    }

    pub fn id(&self) -> (r: &str)
        ensures
            r@ == self.id_spec(),
    {
        self.info.id.as_str()
    }

    pub fn name(&self) -> (r: &str)
        ensures
            r@ == self.name_spec(),
    {
        self.info.name.as_str()
    }

    pub fn project_id(&self) -> (r: &str)
        ensures
            r@ == self.project_id_spec(),
    {
        self.info.project_id.as_str()
    }

    pub fn info(&self) -> (r: &DeviceResponse)
        ensures
            r.id@ == self.id_spec(),
            r.name@ == self.name_spec(),
            r.project_id@ == self.project_id_spec(),
            r.retain_recordings_seconds == self.retain_recordings_seconds_spec(),
    {
        &self.info
    }

    /// Build the authorization request for this device: a POST to the
    /// per-device endpoint, the id percent-encoded as its path segment.
    /// Fails with `NoToken`, before anything is sent, exactly when the
    /// client carries no token.
    pub fn authorize_remote_viz_request(&self) -> (r: Result<
        RequestBuilder,
        FoxgloveApiClientError,
    >)
        ensures
            self.token_spec() is None <==> r == Err::<RequestBuilder, FoxgloveApiClientError>(
                FoxgloveApiClientError::NoToken(),
            ),
            self.token_spec() matches Some(t) ==> (r matches Ok(rb) && rb.method == Method::Post
                && rb.url@ == joined_url(
                self.base_url_spec(),
                remote_sessions_path(encode_utf8(self.id_spec())),
            ) && rb.user_agent@ == self.user_agent_spec() && (rb.auth_header matches Some(h)
                && h@ == token_header(t))),
    {
        self.client.authorize_remote_viz_request(self.info.id.as_str())
    }
}

impl Clone for Device {
    fn clone(&self) -> (r: Self)
        ensures
            r.id_spec() == self.id_spec(),
            r.name_spec() == self.name_spec(),
            r.project_id_spec() == self.project_id_spec(),
            r.retain_recordings_seconds_spec() == self.retain_recordings_seconds_spec(),
            r.token_spec() == self.token_spec(),
            r.base_url_spec() == self.base_url_spec(),
            r.user_agent_spec() == self.user_agent_spec(),
    {
        Device { info: self.info.clone(), client: self.client.clone() }
    }
}

} // verus!
