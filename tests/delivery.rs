use azure_monitor_logs_dce::auth::{
    token_resource, AuthFetchError, AzureAuthenticator, CredentialSource, RefreshOutcome,
    TokenStore, REFRESH_PERIOD_SECS,
};
use azure_monitor_logs_dce::config::{
    AzureClientSecretCredentials, AzureMonitorLogsDceConfig, LogsIngestionDefaultBatchSettings,
};
use azure_monitor_logs_dce::response::HecResponse;
use azure_monitor_logs_dce::retry::{classify_status, AzureMonitorLogsDceRetryLogic, RetryAction};
use azure_monitor_logs_dce::service::{
    AzureMonitorLogsDceRequest, AzureMonitorLogsDceResponse, AzureMonitorLogsDceResponseError,
    AzureMonitorLogsDceRequestBuilder, AzureMonitorLogsDceService, EventFinalizers, EventStatus, GroupedCountByteSize,
    OutboundRequest, RequestMetadata,
};
use azure_monitor_logs_dce::shared::SharedAuthenticator;
use azure_monitor_logs_dce::status::{decimal_string, status_display_text};

fn metadata() -> RequestMetadata {
    RequestMetadata {
        event_count: 3,
        events_estimated_json_encoded_byte_size: 120,
        request_encoded_size: 9,
    }
}

fn response(status: u16) -> AzureMonitorLogsDceResponse {
    AzureMonitorLogsDceResponse {
        status,
        events_byte_size: GroupedCountByteSize { count: 1, byte_size: 10 },
        raw_byte_size: 10,
    }
}

fn authenticator(token: &str) -> AzureAuthenticator {
    AzureAuthenticator::new(CredentialSource::AmbientIdentity, Ok(token.to_string())).unwrap()
}

fn config(host: &str, id: &str, stream: &str) -> AzureMonitorLogsDceConfig {
    AzureMonitorLogsDceConfig {
        immutable_id: id.to_string(),
        stream_name: stream.to_string(),
        endpoint_host: host.to_string(),
        client_credentials: None,
    }
}

#[test]
fn retry_on_too_many_requests() {
    let r = AzureMonitorLogsDceRetryLogic.should_retry_response(&response(429));
    assert_eq!(r, RetryAction::Retry("too many requests".to_string()));
}

#[test]
fn no_retry_on_not_implemented() {
    let r = AzureMonitorLogsDceRetryLogic.should_retry_response(&response(501));
    assert_eq!(r, RetryAction::DontRetry("endpoint not implemented".to_string()));
}

#[test]
fn retry_on_server_error_with_status_text() {
    let r = AzureMonitorLogsDceRetryLogic.should_retry_response(&response(503));
    assert_eq!(r, RetryAction::Retry("503 Service Unavailable".to_string()));
}

#[test]
fn success_on_ok() {
    let r = AzureMonitorLogsDceRetryLogic.should_retry_response(&response(200));
    assert_eq!(r, RetryAction::Successful);
}

#[test]
fn no_retry_on_not_found() {
    let r = AzureMonitorLogsDceRetryLogic.should_retry_response(&response(404));
    assert_eq!(r, RetryAction::DontRetry("response status: 404 Not Found".to_string()));
}

#[test]
fn transport_error_is_retried() {
    let error = AzureMonitorLogsDceResponseError::HttpError {
        error: "connection reset".to_string(),
    };
    assert!(AzureMonitorLogsDceRetryLogic.is_retriable_error(&error));
    assert_eq!(
        AzureMonitorLogsDceRetryLogic.should_retry_error(&error),
        RetryAction::Retry("connection reset".to_string())
    );
}

#[test]
fn server_error_status_is_classified_like_a_response() {
    let error = AzureMonitorLogsDceResponseError::ServerError { code: 400 };
    assert!(!AzureMonitorLogsDceRetryLogic.is_retriable_error(&error));
    assert_eq!(
        AzureMonitorLogsDceRetryLogic.should_retry_error(&error),
        RetryAction::DontRetry("response status: 400 Bad Request".to_string())
    );
    let error = AzureMonitorLogsDceResponseError::ServerError { code: 502 };
    assert!(AzureMonitorLogsDceRetryLogic.is_retriable_error(&error));
}

#[test]
fn every_status_gets_one_decision() {
    for code in 100u16..=599 {
        let r = AzureMonitorLogsDceRetryLogic.should_retry_response(&response(code));
        let expected_retry = code == 429 || (code != 501 && (500..600).contains(&code));
        let expected_success = (200..300).contains(&code);
        match r {
            RetryAction::Successful => assert!(expected_success, "{}", code),
            RetryAction::Retry(_) => assert!(expected_retry, "{}", code),
            RetryAction::DontRetry(_) => assert!(!expected_retry && !expected_success, "{}", code),
        }
    }
}

#[test]
fn classify_status_uses_given_text() {
    assert_eq!(classify_status(418, "teapot"), RetryAction::DontRetry("response status: teapot".to_string()));
    assert_eq!(classify_status(599, "x"), RetryAction::Retry("x".to_string()));
}

#[test]
fn status_text_has_reason_phrase() {
    assert_eq!(status_display_text(404), "404 Not Found");
    assert_eq!(status_display_text(299), "299 <unknown status code>");
}

#[test]
fn decimal_string_writes_digits() {
    assert_eq!(decimal_string(0), "0");
    assert_eq!(decimal_string(9), "9");
    assert_eq!(decimal_string(1_000_000), "1000000");
    assert_eq!(decimal_string(usize::MAX), usize::MAX.to_string());
}

#[test]
fn request_headers_are_built() {
    let svc = AzureMonitorLogsDceService::new("https://h/x".to_string());
    let request = AzureMonitorLogsDceRequest {
        body: b"[{\"a\":1}]".to_vec(),
        finalizers: EventFinalizers { batch_ids: vec![1] },
        metadata: metadata(),
    };
    let (http, meta) = svc.call(request, &authenticator("T1"));
    assert_eq!(http.content_length, "9");
    assert_eq!(http.content_type, "application/json");
    assert_eq!(http.authorization, Some("Bearer T1".to_string()));
    assert_eq!(http.body, b"[{\"a\":1}]".to_vec());
    assert_eq!(http.uri, "https://h/x");
    assert_eq!(meta, metadata());
}

#[test]
fn apply_replaces_authorization() {
    let mut req = OutboundRequest {
        uri: "u".to_string(),
        content_type: "application/json".to_string(),
        content_length: "0".to_string(),
        authorization: Some("Bearer old".to_string()),
        body: vec![],
    };
    authenticator("new").apply(&mut req);
    assert_eq!(req.authorization, Some("Bearer new".to_string()));
    assert_eq!(req.uri, "u");
}

#[test]
fn endpoint_url_is_built() {
    let cfg = config("x.ingest.monitor.azure.com", "dcr-1", "Custom-A");
    assert_eq!(
        cfg.create_endpoint(),
        "https://x.ingest.monitor.azure.com/dataCollectionRules/dcr-1/streams/Custom-A?api-version=2021-11-01-preview"
    );
}

#[test]
fn default_config_values() {
    let cfg = AzureMonitorLogsDceConfig::default();
    assert_eq!(cfg.immutable_id, "dcr-00000000000000000000000000000000");
    assert_eq!(cfg.stream_name, "Custom-CustomTableRawData");
    assert_eq!(cfg.endpoint_host, "sample.westeurope.ingest.monitor.azure.com");
    assert!(cfg.client_credentials.is_none());
}

#[test]
fn batch_settings_limits() {
    assert_eq!(LogsIngestionDefaultBatchSettings::max_events(), None);
    assert_eq!(LogsIngestionDefaultBatchSettings::max_bytes(), Some(1_000_000));
    assert_eq!(LogsIngestionDefaultBatchSettings::timeout_secs(), 10);
}

#[test]
fn refresh_installs_new_token() {
    let mut auth = authenticator("old");
    assert_eq!(auth.regenerate_token(Ok("new".to_string())), RefreshOutcome::Refreshed);
    assert_eq!(auth.get_token(), "new");
    assert_eq!(auth.get_token(), "new");
}

#[test]
fn failed_refresh_keeps_token() {
    let mut auth = authenticator("old");
    let err = AuthFetchError::Provider { message: "unreachable".to_string() };
    assert_eq!(auth.regenerate_token(Err(err.clone())), RefreshOutcome::Failed(err));
    assert_eq!(auth.get_token(), "old");
}

#[test]
fn malformed_tokens_are_refused() {
    let mut auth = authenticator("old");
    assert_eq!(
        auth.regenerate_token(Ok(String::new())),
        RefreshOutcome::Failed(AuthFetchError::MalformedToken)
    );
    assert_eq!(
        auth.regenerate_token(Ok("a\nb".to_string())),
        RefreshOutcome::Failed(AuthFetchError::MalformedToken)
    );
    assert_eq!(auth.get_token(), "old");
    assert_eq!(auth.regenerate_token(Ok("é\tx".to_string())), RefreshOutcome::Refreshed);
    assert_eq!(auth.get_token(), "é\tx");
}

#[test]
fn startup_fails_when_first_fetch_fails() {
    let err = AuthFetchError::Provider { message: "rejected".to_string() };
    let cfg = config("h", "i", "s");
    assert_eq!(cfg.build(Err(err.clone())).err(), Some(err));
    assert!(AzureAuthenticator::new(CredentialSource::AmbientIdentity, Ok("bad\u{7f}".to_string())).is_err());
}

#[test]
fn build_uses_config() {
    let mut cfg = config("h", "i", "s");
    cfg.client_credentials = Some(AzureClientSecretCredentials {
        tenant_id: "t".to_string(),
        client_id: "c".to_string(),
        client_secret: "s".to_string(),
    });
    let (auth, svc) = cfg.build(Ok("tok".to_string())).unwrap();
    assert_eq!(auth.get_token(), "tok");
    assert_eq!(svc.uri(), "https://h/dataCollectionRules/i/streams/s?api-version=2021-11-01-preview");
    match auth.credential() {
        CredentialSource::ServicePrincipalSecret { tenant_id, client_id, client_secret } => {
            assert_eq!((tenant_id.as_str(), client_id.as_str(), client_secret.as_str()), ("t", "c", "s"));
        }
        CredentialSource::AmbientIdentity => panic!("expected service principal"),
    }
    assert!(matches!(CredentialSource::from_credentials(None), CredentialSource::AmbientIdentity));
}

#[test]
fn token_store_get_and_replace() {
    let mut store = TokenStore::new("a".to_string());
    assert_eq!(store.get(), "a");
    store.replace("b".to_string());
    assert_eq!(store.get(), "b");
    assert_eq!(token_resource(), "https://monitor.azure.com/");
    assert_eq!(REFRESH_PERIOD_SECS, 3600);
}

#[test]
fn complete_maps_transport_answer() {
    let ok = AzureMonitorLogsDceService::complete(metadata(), Ok(204)).unwrap();
    assert_eq!(ok.status, 204);
    assert_eq!(ok.bytes_sent(), Some(9));
    assert_eq!(*ok.events_sent(), GroupedCountByteSize { count: 3, byte_size: 120 });
    assert_eq!(ok.event_status(), EventStatus::Delivered);
    assert_eq!(
        AzureMonitorLogsDceService::complete(metadata(), Ok(500)),
        Err(AzureMonitorLogsDceResponseError::ServerError { code: 500 })
    );
    assert_eq!(
        AzureMonitorLogsDceService::complete(metadata(), Err("timeout".to_string())),
        Err(AzureMonitorLogsDceResponseError::HttpError { error: "timeout".to_string() })
    );
}

#[test]
fn event_status_by_code() {
    assert_eq!(response(200).event_status(), EventStatus::Delivered);
    assert_eq!(response(503).event_status(), EventStatus::Errored);
    assert_eq!(response(404).event_status(), EventStatus::Rejected);
}

#[test]
fn take_finalizers_empties_request() {
    let mut request = AzureMonitorLogsDceRequest {
        body: vec![1, 2],
        finalizers: EventFinalizers { batch_ids: vec![4, 5] },
        metadata: metadata(),
    };
    let taken = request.take_finalizers();
    assert_eq!(taken.batch_ids, vec![4, 5]);
    assert!(request.finalizers.batch_ids.is_empty());
    assert_eq!(*request.get_metadata(), metadata());
}

#[test]
fn request_builder_keeps_parts() {
    let request = AzureMonitorLogsDceRequestBuilder.build_request(
        EventFinalizers { batch_ids: vec![7] },
        metadata(),
        b"[1]".to_vec(),
    );
    assert_eq!(request.body, b"[1]".to_vec());
    assert_eq!(request.finalizers.batch_ids, vec![7]);
    assert_eq!(request.metadata, metadata());
}

#[test]
fn hec_response_reports_recorded_status() {
    let r = HecResponse {
        event_status: EventStatus::Rejected,
        events_count: 2,
        events_byte_size: GroupedCountByteSize { count: 2, byte_size: 40 },
    };
    assert_eq!(*r.as_ref(), EventStatus::Rejected);
    assert_eq!(r.event_status(), EventStatus::Rejected);
    assert_eq!(*r.events_sent(), GroupedCountByteSize { count: 2, byte_size: 40 });
}

#[test]
fn shared_authenticator_reads_and_refreshes() {
    let shared = SharedAuthenticator::new(authenticator("first"));
    assert_eq!(shared.get_token(), "first");
    assert_eq!(shared.regenerate_token(Ok("second".to_string())), RefreshOutcome::Refreshed);
    assert_eq!(shared.get_token(), "second");
    let err = AuthFetchError::Provider { message: "down".to_string() };
    assert_eq!(shared.regenerate_token(Err(err.clone())), RefreshOutcome::Failed(err));
    assert_eq!(shared.get_token(), "second");
    let svc = AzureMonitorLogsDceService::new("https://h/p".to_string());
    let request = AzureMonitorLogsDceRequest {
        body: b"[]".to_vec(),
        finalizers: EventFinalizers { batch_ids: vec![] },
        metadata: metadata(),
    };
    let (http, _) = shared.prepare_call(&svc, request);
    assert_eq!(http.authorization, Some("Bearer second".to_string()));
    assert_eq!(http.content_length, "2");
}
