//! The credential cache.
//!
//! The provider owns at most one session credential and the identity that
//! can fetch a new one.  A concurrent holder wraps it so that the slot is
//! read lock-free and a lock serializes refreshes; the decisions — serve the
//! cache, re-check under the refresh lock, install or keep on failure — live here,
//! where they are verified.
//!
//! One run of the cached load is modelled by `load_refresh_count`,
//! `load_result` and `load_creds_after` over three observations: the
//! lock-free first read, the re-read made after acquiring the refresh lock,
//! and, only when both were empty, the outcome of the single authorization
//! call.  The laws below are stated over that model; the executable methods
//! are the reads and writes the runs are made of, each tied to the same
//! views by its contract.

use vstd::prelude::*;

verus! {

use crate::device::Device;
use crate::errors::FoxgloveApiClientError;
use crate::types::RtcCredentials;

/// Everything a credential load can fail with.
#[derive(Debug)]
pub enum CredentialsError {
    /// The underlying authorization call failed.
    FetchFailed(FoxgloveApiClientError),
}

/// A credential as its pair of views: the token text and the URL text.
pub open spec fn cred_view(c: RtcCredentials) -> (Seq<char>, Seq<char>) {
    (c.token@, c.url@)
}

/// The cache slot as a view: the credential's views, where one is held.
pub open spec fn opt_cred_view(c: Option<RtcCredentials>) -> Option<(Seq<char>, Seq<char>)> {
    match c {
        Some(cr) => Some(cred_view(cr)),
        None => None,
    }
}

/// How many authorization calls one run of the cached load makes, given what
/// its two reads of the slot saw: none if either read found a credential,
/// exactly one otherwise.
pub open spec fn load_refresh_count(
    first_read: Option<(Seq<char>, Seq<char>)>,
    second_read: Option<(Seq<char>, Seq<char>)>,
) -> nat {
    if first_read is Some || second_read is Some {
        0
    } else {
        1
    }
}

/// What one run of the cached load returns: the first credential seen, or
/// else the outcome of its single authorization call.
pub open spec fn load_result(
    first_read: Option<(Seq<char>, Seq<char>)>,
    second_read: Option<(Seq<char>, Seq<char>)>,
    fetch: Result<(Seq<char>, Seq<char>), FoxgloveApiClientError>,
) -> Result<(Seq<char>, Seq<char>), FoxgloveApiClientError> {
    match first_read {
        Some(c) => Ok(c),
        None => match second_read {
            Some(c) => Ok(c),
            None => fetch,
        },
    }
}

/// What the slot holds after one run of the cached load: unchanged unless
/// the run fetched successfully, in which case the new credential replaced
/// it.
pub open spec fn load_creds_after(
    first_read: Option<(Seq<char>, Seq<char>)>,
    second_read: Option<(Seq<char>, Seq<char>)>,
    fetch: Result<(Seq<char>, Seq<char>), FoxgloveApiClientError>,
    before: Option<(Seq<char>, Seq<char>)>,
) -> Option<(Seq<char>, Seq<char>)> {
    if first_read is None && second_read is None && fetch is Ok {
        match fetch {
            Ok(c) => Some(c),
            Err(_) => before,
        }
    } else {
        before
    }
}

/// A load never makes more than one authorization call, whatever its reads
/// saw: the single-flight bound for each run.
pub proof fn lemma_load_single_refresh(
    first_read: Option<(Seq<char>, Seq<char>)>,
    second_read: Option<(Seq<char>, Seq<char>)>,
)
    ensures
        load_refresh_count(first_read, second_read) <= 1,
{
}

/// The fast path: a load whose first, lock-free read finds a credential
/// returns it with no authorization call, whatever a fetch would have
/// produced, and leaves the slot as it was.
pub proof fn lemma_load_fast_path(
    first_read: Option<(Seq<char>, Seq<char>)>,
    second_read: Option<(Seq<char>, Seq<char>)>,
    fetch: Result<(Seq<char>, Seq<char>), FoxgloveApiClientError>,
    before: Option<(Seq<char>, Seq<char>)>,
)
    requires
        first_read is Some,
    ensures
        load_refresh_count(first_read, second_read) == 0,
        load_result(first_read, second_read, fetch) == Ok::<_, FoxgloveApiClientError>(
            first_read.unwrap(),
        ),
        load_creds_after(first_read, second_read, fetch, before) == before,
{
}

/// The double check: a load that found the slot empty but, once it holds the refresh
/// lock, sees the credential another run installed, returns that credential
/// without an authorization call of its own.
pub proof fn lemma_load_second_check(
    second_read: Option<(Seq<char>, Seq<char>)>,
    fetch: Result<(Seq<char>, Seq<char>), FoxgloveApiClientError>,
    before: Option<(Seq<char>, Seq<char>)>,
)
    requires
        second_read is Some,
    ensures
        load_refresh_count(None, second_read) == 0,
        load_result(None, second_read, fetch) == Ok::<_, FoxgloveApiClientError>(
            second_read.unwrap(),
        ),
        load_creds_after(None, second_read, fetch, before) == before,
{
}

/// Any number of runs racing on a cold cache: the one that takes the
/// refresh lock first reads the slot empty twice, fetches once and installs;
/// each of the other runs re-reads the installed credential under the
/// refresh lock, whatever a fetch of its own would have produced.  Together
/// the runs make exactly one authorization call, and every run returns the
/// winner's credential.
pub proof fn lemma_single_flight(n: nat, winner_fetch: (Seq<char>, Seq<char>))
    requires
        n >= 1,
    ensures
        load_refresh_count(None, None) + (n - 1) * load_refresh_count(None, Some(winner_fetch))
            == 1,
        load_result(None, None, Ok(winner_fetch)) == Ok::<_, FoxgloveApiClientError>(winner_fetch),
        forall|other_fetch: Result<(Seq<char>, Seq<char>), FoxgloveApiClientError>|
            load_result(None, Some(winner_fetch), other_fetch) == Ok::<
                _,
                FoxgloveApiClientError,
            >(winner_fetch),
        load_creds_after(None, None, Ok(winner_fetch), None) == Some(winner_fetch),
{
}

/// Clearing then loading: a load that runs after `clear`, with no
/// interleaved install, reads the emptied slot twice and so makes exactly
/// one fresh authorization call, whose outcome it returns.
pub proof fn lemma_clear_then_reload(
    fetch: Result<(Seq<char>, Seq<char>), FoxgloveApiClientError>,
)
    ensures
        load_refresh_count(None, None) == 1,
        load_result(None, None, fetch) == fetch,
        fetch is Err ==> load_creds_after(None, None, fetch, None) is None,
{
}

/// What a finished refresh does with what the single authorization call
/// produced, as values: the credential to install in the slot — a success
/// replaces it whole, a failure installs nothing — and the outcome handed to
/// the caller.  Every holder of a slot settles its refresh here, so the
/// decision is made once, in verified code.
pub fn settle_refresh(fetched: Result<RtcCredentials, FoxgloveApiClientError>) -> (r: (
    Option<RtcCredentials>,
    Result<RtcCredentials, CredentialsError>,
))
    ensures
        fetched matches Ok(c) ==> (opt_cred_view(r.0) == Some(cred_view(c)) && (r.1 matches Ok(rc)
            && cred_view(rc) == cred_view(c))),
        fetched matches Err(e) ==> (r.0 is None && r.1 == Err::<RtcCredentials, CredentialsError>(
            CredentialsError::FetchFailed(e),
        )),
{
    match fetched {
        Ok(c) => {
            let install = c.clone();
            (Some(install), Ok(c))
        },
        Err(e) => (None, Err(CredentialsError::FetchFailed(e))),
    }
}

/// The provider: the resolved device identity and the cached credential
/// slot.
pub struct CredentialsProvider {
    device: Device,
    credentials: Option<RtcCredentials>,
}

impl CredentialsProvider {
    /// The cache slot, as the held credential's views.
    pub closed spec fn creds(&self) -> Option<(Seq<char>, Seq<char>)> {
        opt_cred_view(self.credentials)
    }

    /// The identity the provider refreshes with.
    pub closed spec fn device_view(&self) -> Device {
        self.device
    }

    /// A fresh provider holds no credential: the first load must refresh.
    pub fn new(device: Device) -> (r: Self)
        ensures
            r.creds() is None,
            r.device_view() == device,
    {
        CredentialsProvider { device, credentials: None }
    }

    /// The lock-free read of the slot: a copy of the credential, where one
    /// is held.  Never blocks, never fails, reads nothing but the slot.
    pub fn current_credentials(&self) -> (r: Option<RtcCredentials>)
        ensures
            opt_cred_view(r) == self.creds(),
    {
        match &self.credentials {
            Some(c) => Some(c.clone()),
            None => None,
        }
    }

    /// The device whose authorization call refreshes this cache.
    pub fn device(&self) -> (r: &Device)
        ensures
            *r == self.device_view(),
    {
        &self.device
    }

    /// Finish a refresh with what the single authorization call produced:
    /// a success replaces the slot as a whole and is returned; a failure is
    /// propagated and leaves the slot exactly as it was, so nothing is
    /// negatively cached.
    pub fn complete_refresh(&mut self, fetched: Result<
        RtcCredentials,
        FoxgloveApiClientError,
    >) -> (r: Result<RtcCredentials, CredentialsError>)
        ensures
            fetched matches Ok(c) ==> (final(self).creds() == Some(cred_view(c)) && (r matches Ok(
                rc,
            ) && cred_view(rc) == cred_view(c))),
            fetched matches Err(e) ==> (final(self).creds() == old(self).creds() && r == Err::<
                RtcCredentials,
                CredentialsError,
            >(CredentialsError::FetchFailed(e))),
            final(self).device_view() == old(self).device_view(),
    {
        let (install, out) = settle_refresh(fetched);
        if let Some(c) = install {
            self.credentials = Some(c);
        }
        out
    }

    /// Empty the slot unconditionally.  A refresh already under way may
    /// still install its result afterwards: last write wins.
    pub fn clear(&mut self)
        ensures
            final(self).creds() is None,
            final(self).device_view() == old(self).device_view(),
    {
        self.credentials = None;
    }
}

} // verus!
