use foxglove_api::client::{
    classify_response, join_url, DeviceToken, FoxgloveApiClient, FoxgloveApiClientBuilder, Method,
};
use foxglove_api::errors::{FoxgloveApiClientError, RequestError};

const TEST_DEVICE_TOKEN: &str = "fox_dt_testtoken";
const TEST_DEVICE_ID: &str = "dev_testdevice";
const TEST_PROJECT_ID: &str = "prj_testproj";

fn test_client_with_token() -> FoxgloveApiClient {
    FoxgloveApiClientBuilder::new()
        .base_url("http://127.0.0.1:9".to_string())
        .device_token(DeviceToken::new(TEST_DEVICE_TOKEN.to_string()))
        .build()
        .unwrap()
}

fn device_info_body() -> Vec<u8> {
    format!(
        "{{\"id\":\"{}\",\"name\":\"Test Device\",\"projectId\":\"{}\",\"retainRecordingsSeconds\":3600}}",
        TEST_DEVICE_ID, TEST_PROJECT_ID
    )
    .into_bytes()
}

#[test]
fn fetch_device_info_requires_token() {
    let client = FoxgloveApiClientBuilder::new()
        .base_url("http://127.0.0.1:9".to_string())
        .build()
        .unwrap();
    let result = client.fetch_device_info_request();
    assert!(matches!(result, Err(FoxgloveApiClientError::NoToken())));
}

#[test]
fn fetch_device_info_success() {
    let client = test_client_with_token();
    let request = client.fetch_device_info_request().unwrap();
    assert_eq!(
        request.url,
        "http://127.0.0.1:9/internal/platform/v1/device-info"
    );
    assert!(matches!(request.method, Method::Get));
    assert_eq!(
        request.auth_header.as_deref(),
        Some("DeviceToken fox_dt_testtoken")
    );

    let result =
        FoxgloveApiClient::handle_device_info_response(200, Vec::new(), Ok(device_info_body()))
            .expect("could not authorize device info");
    assert_eq!(result.id, TEST_DEVICE_ID);
    assert_eq!(result.name, "Test Device");
    assert_eq!(result.project_id, TEST_PROJECT_ID);
    assert_eq!(result.retain_recordings_seconds, Some(3600));
}

#[test]
fn fetch_device_info_unauthorized() {
    let body = b"{\"error\":\"unauthorized: some-bad-device-token\"}".to_vec();
    let result = FoxgloveApiClient::handle_device_info_response(401, Vec::new(), Ok(body));
    assert!(result.is_err());
}

#[test]
fn authorize_remote_viz_requires_token() {
    let client = FoxgloveApiClientBuilder::new()
        .base_url("http://127.0.0.1:9".to_string())
        .build()
        .unwrap();
    let result = client.authorize_remote_viz_request(TEST_DEVICE_ID);
    assert!(matches!(result, Err(FoxgloveApiClientError::NoToken())));
}

#[test]
fn authorize_remote_viz_success() {
    let client = test_client_with_token();
    let request = client.authorize_remote_viz_request(TEST_DEVICE_ID).unwrap();
    assert_eq!(
        request.url,
        "http://127.0.0.1:9/internal/platform/v1/devices/dev_testdevice/remote-sessions"
    );
    assert!(matches!(request.method, Method::Post));

    let body = b"{\"token\":\"rtc-token-abc123\",\"url\":\"wss://rtc.foxglove.dev\"}".to_vec();
    let result = FoxgloveApiClient::handle_authorize_remote_viz_response(200, Vec::new(), Ok(body))
        .expect("could not authorize remote viz");
    assert_eq!(result.token, "rtc-token-abc123");
    assert_eq!(result.url, "wss://rtc.foxglove.dev");
}

#[test]
fn authorize_remote_viz_unauthorized() {
    let body = b"{\"error\":\"unauthorized: some-bad-device-token\"}".to_vec();
    let result = FoxgloveApiClient::handle_authorize_remote_viz_response(401, Vec::new(), Ok(body));
    assert!(result.is_err());
}

#[test]
fn device_token_header_is_scheme_then_token() {
    let token = DeviceToken::new("abc".to_string());
    assert_eq!(token.to_header(), "DeviceToken abc");
}

#[test]
fn join_url_uses_exactly_one_separator() {
    assert_eq!(join_url("https://x", "p"), "https://x/p");
    assert_eq!(join_url("https://x/", "/p"), "https://x/p");
    assert_eq!(join_url("https://x//", "//p"), "https://x/p");
    assert_eq!(join_url("https://x", "/p/q/"), "https://x/p/q/");
}

#[test]
fn classify_error_response_structured() {
    let body = b"{\"error\":\"bad token\"}".to_vec();
    let result = classify_response(401, Vec::new(), body);
    match result {
        Err(RequestError::ErrorResponse { status, error, headers }) => {
            assert_eq!(status, 401);
            assert_eq!(error.message, "bad token");
            assert_eq!(error.code, None);
            assert!(headers.is_empty());
        }
        other => panic!("expected a structured error, got {}", describe(&other)),
    }
}

#[test]
fn classify_error_response_malformed() {
    let body = b"not json".to_vec();
    let result = classify_response(500, Vec::new(), body);
    match result {
        Err(RequestError::MalformedErrorResponse { status, body, headers }) => {
            assert_eq!(status, 500);
            assert_eq!(body, "not json");
            assert!(headers.is_empty());
        }
        other => panic!("expected a malformed error, got {}", describe(&other)),
    }
}

#[test]
fn classify_success_passes_body_through() {
    let body = b"{\"id\":\"x\"}".to_vec();
    let result = classify_response(200, Vec::new(), body.clone());
    match result {
        Ok(passed) => assert_eq!(passed, body),
        Err(_) => panic!("expected the body back"),
    }
}

#[test]
fn classify_error_with_code_keeps_it() {
    let body = b"{\"error\":\"quota exceeded\",\"code\":\"QUOTA\"}".to_vec();
    let result = classify_response(429, Vec::new(), body);
    match result {
        Err(RequestError::ErrorResponse { status, error, .. }) => {
            assert_eq!(status, 429);
            assert_eq!(error.message, "quota exceeded");
            assert_eq!(error.code.as_deref(), Some("QUOTA"));
        }
        other => panic!("expected a structured error, got {}", describe(&other)),
    }
}

#[test]
fn only_the_error_status_classes_classify_as_errors() {
    assert!(classify_response(399, Vec::new(), b"x".to_vec()).is_ok());
    assert!(classify_response(400, Vec::new(), b"x".to_vec()).is_err());
    assert!(classify_response(499, Vec::new(), b"x".to_vec()).is_err());
    assert!(classify_response(500, Vec::new(), b"x".to_vec()).is_err());
    assert!(classify_response(599, Vec::new(), b"x".to_vec()).is_err());
    assert!(classify_response(600, Vec::new(), b"x".to_vec()).is_ok());
}

#[test]
fn empty_error_body_is_malformed() {
    match classify_response(502, Vec::new(), Vec::new()) {
        Err(RequestError::MalformedErrorResponse { status, body, .. }) => {
            assert_eq!(status, 502);
            assert_eq!(body, "");
        }
        other => panic!("expected a malformed error, got {}", describe(&other)),
    }
}

#[test]
fn device_info_retention_is_optional() {
    let missing = b"{\"id\":\"d\",\"name\":\"n\",\"projectId\":\"p\"}".to_vec();
    let parsed =
        FoxgloveApiClient::handle_device_info_response(200, Vec::new(), Ok(missing)).unwrap();
    assert_eq!(parsed.retain_recordings_seconds, None);

    let null =
        b"{\"id\":\"d\",\"name\":\"n\",\"projectId\":\"p\",\"retainRecordingsSeconds\":null}"
            .to_vec();
    let parsed = FoxgloveApiClient::handle_device_info_response(200, Vec::new(), Ok(null)).unwrap();
    assert_eq!(parsed.retain_recordings_seconds, None);

    let wrong_type =
        b"{\"id\":\"d\",\"name\":\"n\",\"projectId\":\"p\",\"retainRecordingsSeconds\":\"soon\"}"
            .to_vec();
    let result = FoxgloveApiClient::handle_device_info_response(200, Vec::new(), Ok(wrong_type));
    assert!(matches!(
        result,
        Err(FoxgloveApiClientError::Request(RequestError::ParseResponse))
    ));
}

#[test]
fn status_code_reported_for_error_statuses_only() {
    let body = b"{\"error\":\"bad token\"}".to_vec();
    let classified = classify_response(401, Vec::new(), body).unwrap_err();
    let err = FoxgloveApiClientError::Request(classified);
    assert_eq!(err.status_code(), Some(401));

    let malformed =
        classify_response(503, Vec::new(), b"oops".to_vec()).unwrap_err();
    assert_eq!(
        FoxgloveApiClientError::Request(malformed).status_code(),
        Some(503)
    );

    assert_eq!(FoxgloveApiClientError::NoToken().status_code(), None);
    assert_eq!(
        FoxgloveApiClientError::Request(RequestError::ParseResponse).status_code(),
        None
    );
}

#[test]
fn parse_failure_on_success_status() {
    let result =
        FoxgloveApiClient::handle_device_info_response(200, Vec::new(), Ok(b"not json".to_vec()));
    assert!(matches!(
        result,
        Err(FoxgloveApiClientError::Request(RequestError::ParseResponse))
    ));
}

#[test]
fn unreadable_body_is_a_transport_failure() {
    let result = FoxgloveApiClient::handle_device_info_response(
        200,
        Vec::new(),
        Err("connection reset".to_string()),
    );
    match result {
        Err(FoxgloveApiClientError::Request(RequestError::LoadResponseBytes(m))) => {
            assert_eq!(m, "connection reset");
        }
        _ => panic!("expected a body-read failure"),
    }

    // The read failure wins even on an error status: nothing classifies.
    let result = FoxgloveApiClient::handle_authorize_remote_viz_response(
        502,
        Vec::new(),
        Err("timeout".to_string()),
    );
    assert!(matches!(
        result,
        Err(FoxgloveApiClientError::Request(RequestError::LoadResponseBytes(_)))
    ));
}

#[test]
fn builder_defaults_point_at_production() {
    let client = FoxgloveApiClientBuilder::new()
        .device_token(DeviceToken::new("t".to_string()))
        .build()
        .unwrap();
    let request = client.fetch_device_info_request().unwrap();
    assert_eq!(
        request.url,
        "https://api.foxglove.dev/internal/platform/v1/device-info"
    );
    assert_eq!(request.user_agent, "foxglove-sdk/0.1.0");
}

#[test]
fn builder_default_matches_new() {
    let client = FoxgloveApiClientBuilder::default()
        .device_token(DeviceToken::new("t".to_string()))
        .build()
        .unwrap();
    let request = client.fetch_device_info_request().unwrap();
    assert_eq!(
        request.url,
        "https://api.foxglove.dev/internal/platform/v1/device-info"
    );
}

#[test]
fn builder_overrides_are_kept() {
    let client = FoxgloveApiClientBuilder::new()
        .base_url("http://localhost:8080/".to_string())
        .user_agent("custom-agent".to_string())
        .device_token(DeviceToken::new("t".to_string()))
        .build()
        .unwrap();
    let request = client.fetch_device_info_request().unwrap();
    assert_eq!(
        request.url,
        "http://localhost:8080/internal/platform/v1/device-info"
    );
    assert_eq!(request.user_agent, "custom-agent");
}

#[test]
fn set_device_token_enables_requests() {
    let mut client = FoxgloveApiClientBuilder::new()
        .base_url("http://127.0.0.1:9".to_string())
        .build()
        .unwrap();
    assert!(matches!(
        client.fetch_device_info_request(),
        Err(FoxgloveApiClientError::NoToken())
    ));
    client.set_device_token(DeviceToken::new(TEST_DEVICE_TOKEN.to_string()));
    assert!(client.fetch_device_info_request().is_ok());
}

fn describe(r: &Result<Vec<u8>, RequestError>) -> String {
    match r {
        Ok(_) => "a success".to_string(),
        Err(RequestError::SendRequest(_)) => "a send failure".to_string(),
        Err(RequestError::LoadResponseBytes(_)) => "a body-read failure".to_string(),
        Err(RequestError::ErrorResponse { .. }) => "a structured error".to_string(),
        Err(RequestError::MalformedErrorResponse { .. }) => "a malformed error".to_string(),
        Err(RequestError::ParseResponse) => "a parse failure".to_string(),
    }
}
