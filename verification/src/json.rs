//! The JSON boundary.
//!
//! JSON decoding is consumed, never rebuilt here: each response shape has one
//! trusted function whose result is given a name, a spec function with no
//! definition.  What the bytes decode to is a function of the bytes alone, so
//! the names are sound; everything the library concludes from a parse goes
//! through these names and is checked against the real decoder by the tests.

use vstd::prelude::*;

verus! {

use crate::types::{DeviceResponse, ErrorResponse, RtcCredentials};

/// What the service's error envelope `{error, code?}` decodes to, if the
/// bytes decode at all: the message and the optional code.
pub uninterp spec fn error_envelope_of(bytes: Seq<u8>) -> Option<(Seq<char>, Option<Seq<char>>)>;

/// What a device-info body `{id, name, projectId, retainRecordingsSeconds?}`
/// decodes to, if the bytes decode at all.
pub uninterp spec fn device_info_of(bytes: Seq<u8>) -> Option<
    (Seq<char>, Seq<char>, Seq<char>, Option<u64>),
>;

/// What a remote-session body `{token, url}` decodes to, if the bytes decode
/// at all.
pub uninterp spec fn rtc_credentials_of(bytes: Seq<u8>) -> Option<(Seq<char>, Seq<char>)>;

/// What a byte sequence reads as after best-effort text decoding.
pub uninterp spec fn lossy_text_of(bytes: Seq<u8>) -> Seq<char>;

/// Relies on serde_json::from_slice and the serde_json::Value accessors:
/// decoding the error envelope `{error: string, code?: string}` depends on
/// the bytes alone.
#[verifier::external_body]
pub(crate) fn parse_error_response(bytes: &[u8]) -> (r: Option<ErrorResponse>)
    ensures
        (r is Some) == (error_envelope_of(bytes@) is Some),
        r matches Some(e) ==> error_envelope_of(bytes@) == Some(
            (e.message@, e.code.deep_view()),
        ),
{
    let v: serde_json::Value = serde_json::from_slice(bytes).ok()?;
    let message = v.get("error")?.as_str()?.to_string();
    let code = match v.get("code") {
        None => None,
        Some(c) if c.is_null() => None,
        Some(c) => Some(c.as_str()?.to_string()),
    };
    Some(ErrorResponse { message, code })
}

/// Relies on serde_json::from_slice and the serde_json::Value accessors:
/// decoding the device-info body depends on the bytes alone.
#[verifier::external_body]
pub(crate) fn parse_device_response(bytes: &[u8]) -> (r: Option<DeviceResponse>)
    ensures
        (r is Some) == (device_info_of(bytes@) is Some),
        r matches Some(d) ==> device_info_of(bytes@) == Some(
            (d.id@, d.name@, d.project_id@, d.retain_recordings_seconds),
        ),
{
    let v: serde_json::Value = serde_json::from_slice(bytes).ok()?;
    let retain_recordings_seconds = match v.get("retainRecordingsSeconds") {
        None => None,
        Some(x) if x.is_null() => None,
        Some(x) => Some(x.as_u64()?),
    };
    Some(DeviceResponse {
        id: v.get("id")?.as_str()?.to_string(),
        name: v.get("name")?.as_str()?.to_string(),
        project_id: v.get("projectId")?.as_str()?.to_string(),
        retain_recordings_seconds,
    })
}

/// Relies on serde_json::from_slice and the serde_json::Value accessors:
/// decoding the remote-session body `{token: string, url: string}` depends on
/// the bytes alone.
#[verifier::external_body]
pub(crate) fn parse_rtc_credentials(bytes: &[u8]) -> (r: Option<RtcCredentials>)
    ensures
        (r is Some) == (rtc_credentials_of(bytes@) is Some),
        r matches Some(c) ==> rtc_credentials_of(bytes@) == Some((c.token@, c.url@)),
{
    let v: serde_json::Value = serde_json::from_slice(bytes).ok()?;
    Some(RtcCredentials {
        token: v.get("token")?.as_str()?.to_string(),
        url: v.get("url")?.as_str()?.to_string(),
    })
}

/// Relies on String::from_utf8_lossy: the replacement decoding of a byte
/// sequence depends on the bytes alone.
#[verifier::external_body]
pub(crate) fn utf8_lossy(bytes: &[u8]) -> (r: String)
    ensures
        r@ == lossy_text_of(bytes@),
{
    String::from_utf8_lossy(bytes).to_string()
}

} // verus!
