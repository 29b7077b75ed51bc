use telemetry_core::client::Client;
use telemetry_core::codec::{decode_log, encode_log};
use telemetry_core::errors::{CommonError, NetworkingError, RustSideError};
use telemetry_core::log::{Context, Filter, Level, Log, Message};
use telemetry_core::logger::{LoggingStrategy, Provider};
use telemetry_core::network_antenna::{FFINetworkingResponse, NetworkAntenna};
use telemetry_core::network_request::NetworkRequest;
use telemetry_core::text::u64_to_decimal;
use telemetry_core::transfer_client::{Placeholder, TransferClient};

#[derive(Debug)]
struct NoAntenna;

impl NetworkAntenna for NoAntenna {
    fn execute_network_request(
        &self,
        _request: NetworkRequest,
    ) -> Result<FFINetworkingResponse, NetworkingError> {
        Err(NetworkingError::RequestFailed {
            status_code: None,
            url_session_underlying_error: None,
            error_message_from_gateway: None,
        })
    }
}

struct NoProvider;

impl Provider for NoProvider {
    fn transmit_log(&self, _log: Log) -> Result<String, CommonError> {
        Err(CommonError::Unknown)
    }
}

fn local_client() -> TransferClient<NoAntenna> {
    TransferClient::new::<NoProvider>(LoggingStrategy::Local, None)
}

#[test]
fn codec_round_trips_every_field() {
    let log = Log::new(
        Context::new("Onboarding".to_owned()),
        Message::new("first steps".to_owned()),
        Level::Trace,
    );
    let bytes = encode_log(&log);
    let decoded = decode_log(&bytes).expect("an encoding must decode");
    assert!(decoded == log);
    assert_eq!(decoded.context.ctx, log.context.ctx);
    assert_eq!(decoded.message.message, log.message.message);
    assert_eq!(decoded.message.id(), log.message.id());
    assert_eq!(decoded.level, log.level);
    assert_eq!(decoded.timestamp, log.timestamp);
}

#[test]
fn codec_round_trips_empty_strings() {
    let log = Log::new(Context::new(String::new()), Message::new(String::new()), Level::Debug);
    let bytes = encode_log(&log);
    let decoded = decode_log(&bytes).expect("an encoding must decode");
    assert!(decoded == log);
}

#[test]
fn codec_round_trips_non_ascii_text() {
    let log = Log::new(
        Context::new("Suche".to_owned()),
        Message::new("grüße aus München ✓".to_owned()),
        Level::Critical,
    );
    let bytes = encode_log(&log);
    let decoded = decode_log(&bytes).expect("an encoding must decode");
    assert!(decoded == log);
    assert_eq!(decoded.message.message, "grüße aus München ✓");
}

#[test]
fn decode_rejects_corrupt_and_truncated_bytes() {
    assert!(decode_log(&Vec::new()).is_none());
    assert!(decode_log(&vec![9u8]).is_none());
    let log = Log::placeholder();
    let mut bytes = encode_log(&log);
    bytes.pop();
    assert!(decode_log(&bytes).is_none());
    let mut with_garbage = encode_log(&log);
    with_garbage.push(0);
    assert!(decode_log(&with_garbage).is_none());
    let mut bad_level = encode_log(&log);
    bad_level[0] = 200;
    assert!(decode_log(&bad_level).is_none());
}

#[test]
fn read_message_from_file() {
    let placeholder = Log::placeholder();
    let mut client = Client::<NoProvider, NoAntenna>::new(LoggingStrategy::Local, None);
    client.write_log(placeholder).expect("Write log to file");
    let log = client
        .retrieve_logs(Filter::Text)
        .expect("Retrieve and deserialize log");
    assert_eq!(log.message.message, "Placeholder Log".to_owned())
}

#[test]
fn client_write_acknowledges_byte_count() {
    let log = Log::new(
        Context::new("Onboarding".to_owned()),
        Message::new("hello".to_owned()),
        Level::Normal,
    );
    let encoded_len = encode_log(&log).len();
    let mut client = Client::<NoProvider, NoAntenna>::new(LoggingStrategy::Local, None);
    let count = client.write_log(log).expect("local write succeeds");
    assert_eq!(count, encoded_len);
}

#[test]
fn overwrite_keeps_only_the_last_record() {
    let mut client = local_client();
    let first = Log::new(
        Context::new("Onboarding".to_owned()),
        Message::new("first".to_owned()),
        Level::Normal,
    );
    let second = Log::new(
        Context::new("Checkout".to_owned()),
        Message::new("second".to_owned()),
        Level::Error,
    );
    client
        .write_log::<NoProvider>(first, &LoggingStrategy::Local)
        .expect("first write succeeds");
    client
        .write_log::<NoProvider>(second, &LoggingStrategy::Local)
        .expect("second write succeeds");
    let retrieved = client.retrieve_logs(Filter::Time).expect("a record is stored");
    assert_eq!(retrieved.message.message, "second".to_owned());
    assert_ne!(retrieved.message.message, "first".to_owned());
    assert_eq!(retrieved.context.ctx, "Checkout".to_owned());
    assert_eq!(retrieved.level, Level::Error);
}

#[test]
fn retrieve_from_empty_store_is_a_typed_error() {
    let client = local_client();
    match client.retrieve_logs(Filter::Context) {
        Err(RustSideError::IOError { .. }) => {},
        other => panic!("expected an IO error, got {:?}", other),
    }
}

#[test]
fn transfer_write_acknowledges_byte_count() {
    let mut client = local_client();
    let log = Log::new(
        Context::new("Onboarding".to_owned()),
        Message::new(String::new()),
        Level::Normal,
    );
    let encoded_len = encode_log(&log).len();
    let ack = client
        .write_log::<NoProvider>(log, &LoggingStrategy::Local)
        .expect("local write succeeds");
    assert_eq!(ack, format!("{}", encoded_len));
}

#[test]
fn decimal_rendering_matches_formatting() {
    assert_eq!(u64_to_decimal(0), "0".to_owned());
    assert_eq!(u64_to_decimal(7), "7".to_owned());
    assert_eq!(u64_to_decimal(10), "10".to_owned());
    assert_eq!(u64_to_decimal(1234567890), "1234567890".to_owned());
    assert_eq!(u64_to_decimal(u64::MAX), format!("{}", u64::MAX));
}
