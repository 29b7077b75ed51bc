//! A minimal telemetry-shipping core: structured log events are either
//! persisted to a single-slot local store or handed to a caller-supplied
//! cloud transmitter, chosen by an immutable strategy.

pub mod analytics;
pub mod client;
pub mod codec;
pub mod errors;
pub mod http_client;
pub mod log;
pub mod logger;
pub mod network_antenna;
pub mod network_request;
pub mod store;
pub mod text;
pub mod transfer_client;

pub use log::{Context, Filter, Level, Log, Message};
