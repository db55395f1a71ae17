use foxglove_api::client::{DeviceToken, FoxgloveApiClient, FoxgloveApiClientBuilder};
use foxglove_api::device::Device;
use foxglove_api::errors::FoxgloveApiClientError;
use foxglove_api::provider::{CredentialsError, CredentialsProvider};
use foxglove_api::types::RtcCredentials;

fn test_device(id: &str, name: &str) -> Device {
    let client = FoxgloveApiClientBuilder::new()
        .base_url("http://127.0.0.1:9".to_string())
        .device_token(DeviceToken::new("fox_dt_testtoken".to_string()))
        .build()
        .unwrap();
    let body = format!(
        "{{\"id\":\"{id}\",\"name\":\"{name}\",\"projectId\":\"prj_testproj\"}}"
    )
    .into_bytes();
    let info = FoxgloveApiClient::handle_device_info_response(200, Vec::new(), Ok(body)).unwrap();
    Device::new(client, info)
}

fn fresh_credentials(token: &str, url: &str) -> RtcCredentials {
    RtcCredentials {
        token: token.to_string(),
        url: url.to_string(),
    }
}

/// Drives one run of the cached load against the sequential provider,
/// counting authorization calls; the single-threaded run stands in for the
/// refresh lock.
fn run_load(
    provider: &mut CredentialsProvider,
    authorize_calls: &mut u32,
    fetch: Result<RtcCredentials, FoxgloveApiClientError>,
) -> Result<RtcCredentials, CredentialsError> {
    if let Some(c) = provider.current_credentials() {
        return Ok(c);
    }
    if let Some(c) = provider.current_credentials() {
        return Ok(c);
    }
    *authorize_calls += 1;
    provider.complete_refresh(fetch)
}

#[test]
fn cold_cache_loads_once_then_serves_cached() {
    let mut provider = CredentialsProvider::new(test_device("dev_1", "Test Device"));
    let mut calls: u32 = 0;

    let first = run_load(
        &mut provider,
        &mut calls,
        Ok(fresh_credentials("abc", "wss://x")),
    )
    .unwrap();
    assert_eq!(calls, 1);
    assert_eq!(first.token, "abc");

    // A second load must not fetch again; hand it a fetch that would fail.
    let second = run_load(
        &mut provider,
        &mut calls,
        Err(FoxgloveApiClientError::NoToken()),
    )
    .unwrap();
    assert_eq!(calls, 1);
    assert_eq!(second.token, "abc");
    assert_eq!(second.url, "wss://x");
}

#[test]
fn current_credentials_reads_without_fetching() {
    let mut provider = CredentialsProvider::new(test_device("dev_1", "Test Device"));
    assert!(provider.current_credentials().is_none());

    provider
        .complete_refresh(Ok(fresh_credentials("abc", "wss://x")))
        .unwrap();
    let cached = provider.current_credentials().unwrap();
    assert_eq!(cached.token, "abc");
    assert_eq!(cached.url, "wss://x");
}

#[test]
fn clear_then_reload_fetches_exactly_once() {
    let mut provider = CredentialsProvider::new(test_device("dev_1", "Test Device"));
    let mut calls: u32 = 0;
    run_load(
        &mut provider,
        &mut calls,
        Ok(fresh_credentials("abc", "wss://x")),
    )
    .unwrap();
    assert_eq!(calls, 1);

    provider.clear();
    assert!(provider.current_credentials().is_none());

    let reloaded = run_load(
        &mut provider,
        &mut calls,
        Ok(fresh_credentials("def", "wss://y")),
    )
    .unwrap();
    assert_eq!(calls, 2);
    assert_eq!(reloaded.token, "def");
}

#[test]
fn failed_refresh_leaves_cache_cold() {
    let mut provider = CredentialsProvider::new(test_device("dev_1", "Test Device"));
    let mut calls: u32 = 0;

    let failed = run_load(
        &mut provider,
        &mut calls,
        Err(FoxgloveApiClientError::NoToken()),
    );
    assert_eq!(calls, 1);
    assert!(matches!(
        failed,
        Err(CredentialsError::FetchFailed(FoxgloveApiClientError::NoToken()))
    ));
    assert!(provider.current_credentials().is_none());

    // No negative caching: the next load fetches again.
    let recovered = run_load(
        &mut provider,
        &mut calls,
        Ok(fresh_credentials("abc", "wss://x")),
    )
    .unwrap();
    assert_eq!(calls, 2);
    assert_eq!(recovered.token, "abc");
}

#[test]
fn failed_refresh_keeps_previous_credential() {
    let mut provider = CredentialsProvider::new(test_device("dev_1", "Test Device"));
    provider
        .complete_refresh(Ok(fresh_credentials("abc", "wss://x")))
        .unwrap();

    let failed = provider.complete_refresh(Err(FoxgloveApiClientError::NoToken()));
    assert!(failed.is_err());
    let kept = provider.current_credentials().unwrap();
    assert_eq!(kept.token, "abc");
}

#[test]
fn end_to_end_scenario() {
    let device = test_device("dev_1", "Test Device");
    assert_eq!(device.id(), "dev_1");
    assert_eq!(device.name(), "Test Device");

    let request = device.authorize_remote_viz_request().unwrap();
    assert_eq!(
        request.url,
        "http://127.0.0.1:9/internal/platform/v1/devices/dev_1/remote-sessions"
    );

    let mut provider = CredentialsProvider::new(device);
    let mut authorize_calls: u32 = 0;

    // The mock service's answer to the one authorization call.
    let body = b"{\"token\":\"abc\",\"url\":\"wss://x\"}".to_vec();
    let fetch = FoxgloveApiClient::handle_authorize_remote_viz_response(200, Vec::new(), Ok(body));
    let credentials = run_load(&mut provider, &mut authorize_calls, fetch).unwrap();

    assert_eq!(authorize_calls, 1);
    assert_eq!(credentials.token, "abc");
    assert_eq!(credentials.url, "wss://x");
}

#[test]
fn encoded_id_reaches_the_authorization_path() {
    let device = test_device("dev 1/x", "Oddly Named");
    let request = device.authorize_remote_viz_request().unwrap();
    assert_eq!(
        request.url,
        "http://127.0.0.1:9/internal/platform/v1/devices/dev%201%2Fx/remote-sessions"
    );
}
