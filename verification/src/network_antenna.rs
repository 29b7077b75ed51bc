//! The network antenna capability: the minimal interface the host
//! implements to execute one opaque network request. The core places no
//! behavioral requirement on it; every result it may return is handled by
//! the decoding client's own validation layer.

use vstd::prelude::*;

use crate::errors::NetworkingError;
use crate::network_request::NetworkRequest;

verus! {

/// One raw network response: a status code and a body that may
/// legitimately be empty. Failures are reported through the error
/// channel of [`NetworkAntenna::execute_network_request`], never as a
/// response with a sentinel status code.
#[derive(Debug)]
pub struct FFINetworkingResponse {
    pub status_code: u16,
    /// Can be empty.
    pub body: Vec<u8>,
}

/// The request in the flat shape handed across the host boundary: plain
/// strings and bytes only.
#[derive(Debug)]
pub struct FFINetworkingRequest {
    pub url: String,
    pub method: String,
    pub headers: Vec<(String, String)>,
    pub body: Vec<u8>,
}

/// The capability, implemented outside the core by the host environment:
/// executes one already-built request and returns the raw response, or a
/// classified networking failure.
pub trait NetworkAntenna {
    fn execute_network_request(&self, request: NetworkRequest) -> Result<
        FFINetworkingResponse,
        NetworkingError,
    >;
}

} // verus!
