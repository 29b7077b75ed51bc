use telemetry_core::errors::{CommonError, NetworkingError, RustSideError};
use telemetry_core::http_client::{response_into_body, HttpClient};
use telemetry_core::log::{Context, Filter, Level, Log, Message};
use telemetry_core::logger::{Logger, LoggingStrategy, Provider};
use telemetry_core::network_antenna::{FFINetworkingResponse, NetworkAntenna};
use telemetry_core::network_request::{NetworkMethod, NetworkRequest};
use telemetry_core::transfer_client::TransferClient;

#[derive(Debug)]
struct NoAntenna;

impl NetworkAntenna for NoAntenna {
    fn execute_network_request(
        &self,
        _request: NetworkRequest,
    ) -> Result<FFINetworkingResponse, NetworkingError> {
        Err(NetworkingError::RequestFailed {
            status_code: None,
            url_session_underlying_error: None,
            error_message_from_gateway: None,
        })
    }
}

/// An antenna that always answers with a fixed status code and body.
struct FixedAntenna {
    status_code: u16,
    body: Vec<u8>,
}

impl NetworkAntenna for FixedAntenna {
    fn execute_network_request(
        &self,
        _request: NetworkRequest,
    ) -> Result<FFINetworkingResponse, NetworkingError> {
        Ok(FFINetworkingResponse { status_code: self.status_code, body: self.body.clone() })
    }
}

struct NoProvider;

impl Provider for NoProvider {
    fn transmit_log(&self, _log: Log) -> Result<String, CommonError> {
        Err(CommonError::Unknown)
    }
}

struct AckProvider;

impl Provider for AckProvider {
    fn transmit_log(&self, _log: Log) -> Result<String, CommonError> {
        Ok("delivered".to_owned())
    }
}

#[derive(Debug, PartialEq)]
struct UserProfile {
    name: String,
}

fn post_request() -> NetworkRequest {
    NetworkRequest::new_post(url::Url::parse("https://logs.example.com/ingest").unwrap())
}

#[test]
fn local_strategy_builds_without_antenna_and_stays_local() {
    let client: TransferClient<NoAntenna> =
        TransferClient::new::<NoProvider>(LoggingStrategy::Local, None);
    assert!(client.http_client.is_none());
}

#[test]
fn cloud_strategy_requires_and_keeps_the_antenna() {
    let client: TransferClient<NoAntenna> =
        TransferClient::new(LoggingStrategy::Cloud(AckProvider), Some(NoAntenna));
    assert!(client.http_client.is_some());
}

#[test]
fn status_404_yields_bad_response_code() {
    let outcome = Ok(FFINetworkingResponse { status_code: 404, body: b"not found".to_vec() });
    assert_eq!(response_into_body(outcome), Err(CommonError::NetworkResponseBadCode));
}

#[test]
fn status_within_success_range_yields_the_body() {
    let outcome = Ok(FFINetworkingResponse { status_code: 204, body: Vec::new() });
    assert_eq!(response_into_body(outcome), Ok(Vec::new()));
    let outcome = Ok(FFINetworkingResponse { status_code: 200, body: b"payload".to_vec() });
    assert_eq!(response_into_body(outcome), Ok(b"payload".to_vec()));
}

#[test]
fn antenna_failure_is_carried_through() {
    let error = NetworkingError::FailedToCreateURLFrom { string: "nope".to_owned() };
    let outcome: Result<FFINetworkingResponse, NetworkingError> = Err(error.clone());
    assert_eq!(
        response_into_body(outcome),
        Err(CommonError::FromNetworkingError { from: error })
    );
}

#[test]
fn decoding_request_with_status_500_never_decodes() {
    let client = HttpClient::new(FixedAntenna { status_code: 500, body: b"{}".to_vec() });
    let result: Result<UserProfile, CommonError> = client.execute_request_with_decoding(
        post_request(),
        |_bytes| -> Option<UserProfile> { panic!("the body must not be decoded") },
        "UserProfile".to_owned(),
    );
    assert_eq!(result, Err(CommonError::NetworkResponseBadCode));
}

#[test]
fn decoding_request_decodes_successful_response() {
    let client = HttpClient::new(FixedAntenna { status_code: 200, body: b"ada".to_vec() });
    let result: Result<UserProfile, CommonError> = client.execute_request_with_decoding(
        post_request(),
        |bytes| -> Option<UserProfile> {
            String::from_utf8(bytes).ok().map(|name| UserProfile { name })
        },
        "UserProfile".to_owned(),
    );
    assert_eq!(result, Ok(UserProfile { name: "ada".to_owned() }));
}

#[test]
fn failed_decode_is_classified_with_the_shape_name() {
    let client = HttpClient::new(FixedAntenna { status_code: 200, body: b"not json".to_vec() });
    let result: Result<UserProfile, CommonError> = client.execute_request_with_decoding(
        post_request(),
        |_bytes| -> Option<UserProfile> { None },
        "UserProfile".to_owned(),
    );
    assert_eq!(
        result,
        Err(CommonError::NetworkResponseJSONDeserialize { into_type: "UserProfile".to_owned() })
    );
}

#[test]
fn networking_failure_reaches_the_decoding_client() {
    let client = HttpClient::new(NoAntenna);
    let result = client.execute_network_request(post_request());
    match result {
        Err(CommonError::FromNetworkingError { from: NetworkingError::RequestFailed { .. } }) => {},
        other => panic!("expected the carried networking failure, got {:?}", other),
    }
}

#[test]
fn log_under_local_strategy_round_trips_through_the_store() {
    let mut logger: Logger<NoProvider, NoAntenna> = Logger {
        transfer_client: TransferClient::new::<NoProvider>(LoggingStrategy::Local, None),
        storage_strategy: LoggingStrategy::Local,
    };
    let ack = logger
        .log(Context::new("Onboarding".to_owned()), Message::new(String::new()), Level::Normal)
        .expect("local logging succeeds");
    assert_eq!(ack, "Bytes written: 79".to_owned());
    let retrieved = logger.transfer_client.retrieve_logs(Filter::Text).expect("a record is stored");
    assert_eq!(retrieved.message.message, String::new());
    assert_eq!(retrieved.level, Level::Normal);
    assert_eq!(retrieved.context.ctx, "Onboarding".to_owned());
}

#[test]
fn cloud_strategy_returns_the_providers_acknowledgement() {
    let mut logger: Logger<AckProvider, NoAntenna> = Logger {
        transfer_client: TransferClient::new(
            LoggingStrategy::Cloud(AckProvider),
            Some(NoAntenna),
        ),
        storage_strategy: LoggingStrategy::Cloud(AckProvider),
    };
    let ack = logger
        .log(Context::new("Sync".to_owned()), Message::new("payload".to_owned()), Level::Debug)
        .expect("cloud logging succeeds");
    assert_eq!(ack, "Bytes written: delivered".to_owned());
}

#[test]
fn cloud_failure_is_funneled_into_the_io_error_shape() {
    let mut logger: Logger<NoProvider, NoAntenna> = Logger {
        transfer_client: TransferClient::new(
            LoggingStrategy::Cloud(NoProvider),
            Some(NoAntenna),
        ),
        storage_strategy: LoggingStrategy::Cloud(NoProvider),
    };
    let result =
        logger.log(Context::new("Sync".to_owned()), Message::new("x".to_owned()), Level::Error);
    match result {
        Err(RustSideError::IOError { error }) => {
            assert_eq!(error, "Networking Error: Unknown Error".to_owned())
        },
        other => panic!("expected the funneled IO error, got {:?}", other),
    }
}

#[test]
fn post_request_builders_compose() {
    let request = post_request()
        .with_headers(vec![("content-type".to_owned(), "application/json".to_owned())])
        .with_body(b"{}".to_vec());
    assert_eq!(request.method, NetworkMethod::Post);
    assert_eq!(
        request.headers,
        vec![("content-type".to_owned(), "application/json".to_owned())]
    );
    assert_eq!(request.body, b"{}".to_vec());
    assert_eq!(request.url.as_str(), "https://logs.example.com/ingest");
}

#[test]
fn error_messages_name_their_classification() {
    assert_eq!(CommonError::Unknown.message(), "Unknown Error");
    assert_eq!(CommonError::NetworkResponseBadCode.message(), "Bad code response");
    assert_eq!(
        NetworkingError::FailedToCreateURLFrom { string: "bad url".to_owned() }.message(),
        "Fail to create Swift 'Foundation.URL' from string: 'bad url'"
    );
    assert_eq!(
        RustSideError::UnableJSONDeserializeHTTPResponseBodyIntoTypeName {
            into_type: "UserProfile".to_owned(),
        }
        .message(),
        "Unable to JSON deserialize HTTP response body into type: UserProfile"
    );
    assert_eq!(
        RustSideError::NetworkingError { error: "timed out".to_owned() }.message(),
        "Networking Error: timed out"
    );
}
