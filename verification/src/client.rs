//! The request executor: building authenticated requests against a base URL
//! and classifying what comes back.
//!
//! Nothing here touches the network.  A request is a plain record — method,
//! full URL, user-agent, optional authorization header — that a transport
//! sends; the response's status, headers and body come back as plain values
//! and are classified here.

use vstd::prelude::*;

verus! {

use vstd::string::StrSliceExecFns;
use vstd::string::StringExecFns;
use vstd::string::StringSliceAdditionalSpecFns;
use crate::encoding::{encode_uri_component, percent_encoded_chars};
use crate::errors::{FoxgloveApiClientError, RequestError};
use crate::json::{
    device_info_of, error_envelope_of, lossy_text_of, parse_device_response, parse_error_response,
    parse_rtc_credentials, rtc_credentials_of, utf8_lossy,
};
use crate::types::{DeviceResponse, RtcCredentials};

/// A long-lived secret identifying a device to the service.  Its view is the
/// token text; it is sent only inside the authorization header.
pub struct DeviceToken {
    token: String,
}

impl View for DeviceToken {
    type V = Seq<char>;

    closed spec fn view(&self) -> Seq<char> {
        self.token@
    }
}

/// The authorization header value for a token: a fixed scheme prefix followed
/// by the token verbatim.
pub open spec fn token_header(token: Seq<char>) -> Seq<char> {
    "DeviceToken "@ + token
}

impl DeviceToken {
    pub fn new(token: String) -> (r: Self)
        ensures
            r@ == token@,
    {
        DeviceToken { token }
    }

    /// The value of the `Authorization` header carrying this token.
    pub fn to_header(&self) -> (r: String)
        ensures
            r@ == token_header(self@),
    {
        String::from_str("DeviceToken ").concat(self.token.as_str())
    }
}

impl Clone for DeviceToken {
    fn clone(&self) -> (r: Self)
        ensures
            r@ == self@,
    {
        DeviceToken { token: self.token.clone() }
    }
}

/// The identifying client header attached to every outgoing request.
pub fn default_user_agent() -> (r: String)
    ensures
        r@ == "foxglove-sdk/0.1.0"@,
{
    String::from_str("foxglove-sdk/0.1.0")
}

/// The production endpoint used when no base URL is configured.
pub fn default_api_url() -> (r: String)
    ensures
        r@ == "https://api.foxglove.dev"@,
{
    String::from_str("https://api.foxglove.dev")
}

/// A base URL with every trailing `/` removed.
pub open spec fn strip_trailing_slashes(s: Seq<char>) -> Seq<char>
    decreases s.len(),
{
    if s.len() > 0 && s[s.len() - 1] == '/' {
        strip_trailing_slashes(s.drop_last())
    } else {
        s
    }
}

/// A path with every leading `/` removed.
pub open spec fn strip_leading_slashes(s: Seq<char>) -> Seq<char>
    decreases s.len(),
{
    if s.len() > 0 && s[0] == '/' {
        strip_leading_slashes(s.drop_first())
    } else {
        s
    }
}

/// A base URL joined to a path with exactly one `/` between them, whatever
/// slashes either side carries.
pub open spec fn joined_url(base: Seq<char>, path: Seq<char>) -> Seq<char> {
    strip_trailing_slashes(base) + seq!['/'] + strip_leading_slashes(path)
}

/// Join a base URL and a path with exactly one `/` separator.
pub fn join_url(base: &str, path: &str) -> (r: String)
    ensures
        r@ == joined_url(base@, path@),
{
    let base_len = base.unicode_len();
    let mut i: usize = base_len;
    proof {
        assert(base@.subrange(0, base_len as int) =~= base@);
    }
    while i > 0 && base.get_char(i - 1) == '/'
        invariant
            i <= base_len,
            base_len == base@.len(),
            strip_trailing_slashes(base@) == strip_trailing_slashes(base@.subrange(0, i as int)),
        decreases i,
    {
        proof {
            let pre = base@.subrange(0, i as int);
            assert(pre[pre.len() - 1] == base@[i - 1]);
            assert(pre.drop_last() =~= base@.subrange(0, i - 1));
        }
        i = i - 1;
    }
    let stripped_base = base.substring_char(0, i);
    proof {
        assert(strip_trailing_slashes(base@.subrange(0, i as int)) == base@.subrange(0, i as int));
        assert(stripped_base@ == strip_trailing_slashes(base@));
    }
    let path_len = path.unicode_len();
    let mut j: usize = 0;
    proof {
        assert(path@.subrange(0, path@.len() as int) =~= path@);
    }
    while j < path_len && path.get_char(j) == '/'
        invariant
            j <= path_len,
            path_len == path@.len(),
            strip_leading_slashes(path@) == strip_leading_slashes(
                path@.subrange(j as int, path@.len() as int),
            ),
        decreases path_len - j,
    {
        proof {
            let suf = path@.subrange(j as int, path@.len() as int);
            assert(suf[0] == path@[j as int]);
            assert(suf.drop_first() =~= path@.subrange(j + 1, path@.len() as int));
        }
        j = j + 1;
    }
    let stripped_path = path.substring_char(j, path_len);
    proof {
        let suf = path@.subrange(j as int, path@.len() as int);
        assert(strip_leading_slashes(suf) == suf);
        assert(stripped_path@ == strip_leading_slashes(path@));
    }
    let r = stripped_base.to_owned().concat("/").concat(stripped_path);
    proof {
        reveal_strlit("/");
        assert(r@ =~= joined_url(base@, path@));
    }
    r
}

/// The HTTP method of a request.
#[derive(Clone, Copy, PartialEq, Eq, Structural)]
pub enum Method {
    Get,
    Post,
}

/// A request ready to be sent: everything the transport needs, as plain
/// values.
pub struct RequestBuilder {
    pub method: Method,
    pub url: String,
    pub user_agent: String,
    /// The `Authorization` header value, where one is attached.
    pub auth_header: Option<String>,
}

impl RequestBuilder {
    /// Attach the authorization header carrying the device token.
    pub fn device_token(self, token: &DeviceToken) -> (r: Self)
        ensures
            r.method == self.method,
            r.url@ == self.url@,
            r.user_agent@ == self.user_agent@,
            r.auth_header matches Some(h) && h@ == token_header(token@),
    {
        RequestBuilder {
            method: self.method,
            url: self.url,
            user_agent: self.user_agent,
            auth_header: Some(token.to_header()),
        }
    }
}

/// True for the statuses the service uses to reject a request: the client
/// and server error classes.
pub open spec fn is_error_status(status: u16) -> bool {
    400 <= status < 600
}

/// What an error-status response classifies to: the structured error exactly
/// when the body decodes as the service's envelope, the malformed error with
/// the body's text otherwise; either way the status and headers are kept.
pub open spec fn classifies_as_error(
    status: u16,
    headers: Vec<(String, String)>,
    body: Seq<u8>,
    e: RequestError,
) -> bool {
    match e {
        RequestError::ErrorResponse { status: st, error, headers: hs } => {
            &&& match error_envelope_of(body) {
                Some(env) => error.message@ == env.0 && error.code.deep_view() == env.1,
                None => false,
            }
            &&& st == status
            &&& hs == headers
        },
        RequestError::MalformedErrorResponse { status: st, body: text, headers: hs } => {
            &&& error_envelope_of(body) is None
            &&& st == status
            &&& text@ == lossy_text_of(body)
            &&& hs == headers
        },
        _ => false,
    }
}

/// Route a response through the error taxonomy: a non-error status passes its
/// body through; an error status becomes the structured or the malformed
/// error, by whether the body decodes as the service's envelope.
pub fn classify_response(status: u16, headers: Vec<(String, String)>, body: Vec<u8>) -> (r: Result<
    Vec<u8>,
    RequestError,
>)
    ensures
        !is_error_status(status) ==> (r matches Ok(b) && b@ == body@),
        is_error_status(status) ==> (r matches Err(e) && classifies_as_error(
            status,
            headers,
            body@,
            e,
        )),
{
    if 400 <= status && status < 600 {
        match parse_error_response(body.as_slice()) {
            Some(error) => Err(RequestError::ErrorResponse { status, error, headers }),
            None => Err(
                RequestError::MalformedErrorResponse {
                    status,
                    body: utf8_lossy(body.as_slice()),
                    headers,
                },
            ),
        }
    } else {
        Ok(body)
    }
}

/// The path of the "fetch device info" endpoint.
pub open spec fn device_info_path() -> Seq<char> {
    "/internal/platform/v1/device-info"@
}

/// The path of the per-device authorization endpoint, with the device id
/// percent-encoded as its path segment.
pub open spec fn remote_sessions_path(id_bytes: Seq<u8>) -> Seq<char> {
    "/internal/platform/v1/devices/"@ + percent_encoded_chars(id_bytes) + "/remote-sessions"@
}

/// The client: a configured base URL, an identifying user-agent, and the
/// device token, where one was supplied.  Requests are built here; a
/// transport sends them.
pub struct FoxgloveApiClient {
    device_token: Option<DeviceToken>,
    base_url: String,
    user_agent: String,
}

impl FoxgloveApiClient {
    pub closed spec fn base_url_spec(&self) -> Seq<char> {
        self.base_url@
    }

    pub closed spec fn user_agent_spec(&self) -> Seq<char> {
        self.user_agent@
    }

    /// The configured token's text, where one was supplied.
    pub closed spec fn token_spec(&self) -> Option<Seq<char>> {
        match self.device_token {
            Some(t) => Some(t@),
            None => None,
        }
    }

    /// Gather the configuration.  Construction never fails here; a transport
    /// built from this configuration may fail with `BuildClient`.
    pub fn new(base_url: String, device_token: Option<DeviceToken>, user_agent: String) -> (r:
        Result<Self, FoxgloveApiClientError>)
        ensures
            r matches Ok(c) && c.base_url_spec() == base_url@ && c.user_agent_spec() == user_agent@
                && c.token_spec() == (match device_token {
                Some(t) => Some(t@),
                None => None::<Seq<char>>,
            }),
    {
        Ok(FoxgloveApiClient { device_token, base_url, user_agent })
    }

    pub fn set_device_token(&mut self, token: DeviceToken)
        ensures
            final(self).token_spec() == Some(token@),
            final(self).base_url_spec() == old(self).base_url_spec(),
            final(self).user_agent_spec() == old(self).user_agent_spec(),
    {
        self.device_token = Some(token);
    }

    pub fn device_token(&self) -> (r: Option<&DeviceToken>)
        ensures
            match r {
                Some(t) => self.token_spec() == Some(t@),
                None => self.token_spec() is None,
            },
    {
        self.device_token.as_ref()
    }

    fn request(&self, method: Method, path: &str) -> (r: RequestBuilder)
        ensures
            r.method == method,
            r.url@ == joined_url(self.base_url_spec(), path@),
            r.user_agent@ == self.user_agent_spec(),
            r.auth_header is None,
    {
        RequestBuilder {
            method,
            url: join_url(self.base_url.as_str(), path),
            user_agent: self.user_agent.clone(),
            auth_header: None,
        }
    }

    pub fn get(&self, endpoint: &str) -> (r: RequestBuilder)
        ensures
            r.method == Method::Get,
            r.url@ == joined_url(self.base_url_spec(), endpoint@),
            r.user_agent@ == self.user_agent_spec(),
            r.auth_header is None,
    {
        self.request(Method::Get, endpoint)
    }

    pub fn post(&self, endpoint: &str) -> (r: RequestBuilder)
        ensures
            r.method == Method::Post,
            r.url@ == joined_url(self.base_url_spec(), endpoint@),
            r.user_agent@ == self.user_agent_spec(),
            r.auth_header is None,
    {
        self.request(Method::Post, endpoint)
    }

    /// Build the "fetch device info" request.  Fails with `NoToken`, before
    /// anything is sent, exactly when no token is configured.
    pub fn fetch_device_info_request(&self) -> (r: Result<
        RequestBuilder,
        FoxgloveApiClientError,
    >)
        ensures
            self.token_spec() is None <==> r == Err::<RequestBuilder, FoxgloveApiClientError>(
                FoxgloveApiClientError::NoToken(),
            ),
            self.token_spec() matches Some(t) ==> (r matches Ok(rb) && rb.method == Method::Get
                && rb.url@ == joined_url(self.base_url_spec(), device_info_path())
                && rb.user_agent@ == self.user_agent_spec() && (rb.auth_header matches Some(h)
                && h@ == token_header(t))),
    {
        let token = match self.device_token.as_ref() {
            Some(t) => t,
            None => {
                return Err(FoxgloveApiClientError::NoToken());
            },
        };
        Ok(self.get("/internal/platform/v1/device-info").device_token(token))
    }

    /// Interpret what came back from the "fetch device info" request.  The
    /// body arrives as the transport's read outcome: a body that could not
    /// be read is a transport failure of its own, whatever the status; a
    /// read body goes through the error taxonomy, and on a success status
    /// must decode as the device record.
    pub fn handle_device_info_response(
        status: u16,
        headers: Vec<(String, String)>,
        body: Result<Vec<u8>, String>,
    ) -> (r: Result<DeviceResponse, FoxgloveApiClientError>)
        ensures
            body matches Err(m) ==> r == Err::<DeviceResponse, FoxgloveApiClientError>(
                FoxgloveApiClientError::Request(RequestError::LoadResponseBytes(m)),
            ),
            body matches Ok(b) ==> (device_info_of(b@) matches Some(info) ==> (!is_error_status(
                status,
            ) ==> (r matches Ok(d) && d.id@ == info.0 && d.name@ == info.1 && d.project_id@
                == info.2 && d.retain_recordings_seconds == info.3))),
            body matches Ok(b) ==> (!is_error_status(status) && device_info_of(b@) is None ==> r
                == Err::<DeviceResponse, FoxgloveApiClientError>(
                FoxgloveApiClientError::Request(RequestError::ParseResponse),
            )),
            body matches Ok(b) ==> (is_error_status(status) ==> (r matches Err(
                FoxgloveApiClientError::Request(e),
            ) && classifies_as_error(status, headers, b@, e))),
    {
        let bytes = match body {
            Ok(b) => b,
            Err(m) => {
                return Err(FoxgloveApiClientError::Request(RequestError::LoadResponseBytes(m)));
            },
        };
        match classify_response(status, headers, bytes) {
            Ok(read) => match parse_device_response(read.as_slice()) {
                Some(d) => Ok(d),
                None => Err(FoxgloveApiClientError::Request(RequestError::ParseResponse)),
            },
            Err(e) => Err(FoxgloveApiClientError::Request(e)),
        }
    }

    /// Build the per-device authorization request, with the device id
    /// percent-encoded into the path.  Fails with `NoToken`, before anything
    /// is sent, exactly when no token is configured.
    pub fn authorize_remote_viz_request(&self, device_id: &str) -> (r: Result<
        RequestBuilder,
        FoxgloveApiClientError,
    >)
        ensures
            self.token_spec() is None <==> r == Err::<RequestBuilder, FoxgloveApiClientError>(
                FoxgloveApiClientError::NoToken(),
            ),
            self.token_spec() matches Some(t) ==> (r matches Ok(rb) && rb.method == Method::Post
                && rb.url@ == joined_url(
                self.base_url_spec(),
                remote_sessions_path(device_id.spec_bytes()),
            ) && rb.user_agent@ == self.user_agent_spec() && (rb.auth_header matches Some(h)
                && h@ == token_header(t))),
    {
        let token = match self.device_token.as_ref() {
            Some(t) => t,
            None => {
                return Err(FoxgloveApiClientError::NoToken());
            },
        };
        let encoded = encode_uri_component(device_id);
        let path = String::from_str("/internal/platform/v1/devices/").concat(
            encoded.as_str(),
        ).concat("/remote-sessions");
        proof {
            assert(path@ =~= remote_sessions_path(device_id.spec_bytes()));
        }
        Ok(self.post(path.as_str()).device_token(token))
    }

    /// Interpret what came back from the authorization request.  The body
    /// arrives as the transport's read outcome: a body that could not be
    /// read is a transport failure of its own, whatever the status; a read
    /// body goes through the error taxonomy, and on a success status must
    /// decode as the session credential.
    pub fn handle_authorize_remote_viz_response(
        status: u16,
        headers: Vec<(String, String)>,
        body: Result<Vec<u8>, String>,
    ) -> (r: Result<RtcCredentials, FoxgloveApiClientError>)
        ensures
            body matches Err(m) ==> r == Err::<RtcCredentials, FoxgloveApiClientError>(
                FoxgloveApiClientError::Request(RequestError::LoadResponseBytes(m)),
            ),
            body matches Ok(b) ==> (rtc_credentials_of(b@) matches Some(c) ==> (!is_error_status(
                status,
            ) ==> (r matches Ok(rc) && rc.token@ == c.0 && rc.url@ == c.1))),
            body matches Ok(b) ==> (!is_error_status(status) && rtc_credentials_of(b@) is None
                ==> r == Err::<RtcCredentials, FoxgloveApiClientError>(
                FoxgloveApiClientError::Request(RequestError::ParseResponse),
            )),
            body matches Ok(b) ==> (is_error_status(status) ==> (r matches Err(
                FoxgloveApiClientError::Request(e),
            ) && classifies_as_error(status, headers, b@, e))),
    {
        let bytes = match body {
            Ok(b) => b,
            Err(m) => {
                return Err(FoxgloveApiClientError::Request(RequestError::LoadResponseBytes(m)));
            },
        };
        match classify_response(status, headers, bytes) {
            Ok(read) => match parse_rtc_credentials(read.as_slice()) {
                Some(c) => Ok(c),
                None => Err(FoxgloveApiClientError::Request(RequestError::ParseResponse)),
            },
            Err(e) => Err(FoxgloveApiClientError::Request(e)),
        }
    }
}

/// Gathers the client's configuration before building it: the base URL and
/// user-agent start at their defaults, and no token is set.
pub struct FoxgloveApiClientBuilder {
    base_url: String,
    device_token: Option<DeviceToken>,
    user_agent: String,
}

impl FoxgloveApiClientBuilder {
    pub closed spec fn base_url_spec(&self) -> Seq<char> {
        self.base_url@
    }

    pub closed spec fn user_agent_spec(&self) -> Seq<char> {
        self.user_agent@
    }

    pub closed spec fn token_spec(&self) -> Option<Seq<char>> {
        match self.device_token {
            Some(t) => Some(t@),
            None => None,
        }
    }

    pub fn new() -> (r: Self)
        ensures
            r.base_url_spec() == "https://api.foxglove.dev"@,
            r.token_spec() is None,
            r.user_agent_spec() == "foxglove-sdk/0.1.0"@,
    {
        FoxgloveApiClientBuilder {
            base_url: default_api_url(),
            device_token: None,
            user_agent: default_user_agent(),
        }
    }

    pub fn base_url(self, url: String) -> (r: Self)
        ensures
            r.base_url_spec() == url@,
            r.token_spec() == self.token_spec(),
            r.user_agent_spec() == self.user_agent_spec(),
    {
        FoxgloveApiClientBuilder {
            base_url: url,
            device_token: self.device_token,
            user_agent: self.user_agent,
        }
    }

    pub fn device_token(self, token: DeviceToken) -> (r: Self)
        ensures
            r.base_url_spec() == self.base_url_spec(),
            r.token_spec() == Some(token@),
            r.user_agent_spec() == self.user_agent_spec(),
    {
        FoxgloveApiClientBuilder {
            base_url: self.base_url,
            device_token: Some(token),
            user_agent: self.user_agent,
        }
    }

    pub fn user_agent(self, agent: String) -> (r: Self)
        ensures
            r.base_url_spec() == self.base_url_spec(),
            r.token_spec() == self.token_spec(),
            r.user_agent_spec() == agent@,
    {
        FoxgloveApiClientBuilder {
            base_url: self.base_url,
            device_token: self.device_token,
            user_agent: agent,
        }
    }

    pub fn build(self) -> (r: Result<FoxgloveApiClient, FoxgloveApiClientError>)
        ensures
            r matches Ok(c) && c.base_url_spec() == self.base_url_spec() && c.token_spec()
                == self.token_spec() && c.user_agent_spec() == self.user_agent_spec(),
    {
        FoxgloveApiClient::new(self.base_url, self.device_token, self.user_agent)
    }
}

impl Default for FoxgloveApiClientBuilder {
    fn default() -> (r: Self)
        ensures
            r.base_url_spec() == "https://api.foxglove.dev"@,
            r.token_spec() is None,
            r.user_agent_spec() == "foxglove-sdk/0.1.0"@,
    {
        FoxgloveApiClientBuilder::new()
    }
}

impl Clone for FoxgloveApiClient {
    fn clone(&self) -> (r: Self)
        ensures
            r.base_url_spec() == self.base_url_spec(),
            r.user_agent_spec() == self.user_agent_spec(),
            r.token_spec() == self.token_spec(),
    {
        FoxgloveApiClient {
            device_token: match &self.device_token {
                Some(t) => Some(t.clone()),
                None => None,
            },
            base_url: self.base_url.clone(),
            user_agent: self.user_agent.clone(),
        }
    }
}


} // verus!
