//! The cross-boundary error taxonomy: host-originated networking
//! failures, core-side processing failures, failures surfaced back across
//! the exposed boundary, and the combined boundary error that can carry a
//! failure from either side without losing its classification.

use vstd::prelude::*;
use vstd::string::StringExecFns;

verus! {

/// A failure raised by the host's own transport stack.
#[derive(Debug, Clone, PartialEq, Eq)]
pub enum NetworkingError {
    /// The destination identifier could not be turned into a URL.
    FailedToCreateURLFrom { string: String },
    /// The request itself failed; the host reports whatever details it has.
    RequestFailed {
        status_code: Option<u16>,
        url_session_underlying_error: Option<String>,
        error_message_from_gateway: Option<String>,
    },
}

impl NetworkingError {
    /// The human-readable text of this failure.
    pub open spec fn spec_message(&self) -> Seq<char> {
        match self {
            NetworkingError::FailedToCreateURLFrom { string } => {
                "Fail to create Swift 'Foundation.URL' from string: '"@ + string@ + "'"@
            },
            NetworkingError::RequestFailed { .. } => "Request failed"@,
        }
    }

    pub fn message(&self) -> (r: String)
        ensures
            r@ == self.spec_message(),
    {
        match self {
            NetworkingError::FailedToCreateURLFrom { string } => {
                let mut s = "Fail to create Swift 'Foundation.URL' from string: '".to_owned();
                s.append(string.as_str());
                s.append("'");
                s
            },
            NetworkingError::RequestFailed { .. } => "Request failed".to_owned(),
        }
    }
}

/// A failure raised on the host side of the boundary.
#[derive(Debug, Clone, PartialEq, Eq)]
pub enum FFISideError {
    Networking { error: NetworkingError },
}

impl FFISideError {
    /// The human-readable text of this failure.
    pub open spec fn spec_message(&self) -> Seq<char> {
        match self {
            FFISideError::Networking { error } => error.spec_message(),
        }
    }

    pub fn message(&self) -> (r: String)
        ensures
            r@ == self.spec_message(),
    {
        match self {
            FFISideError::Networking { error } => error.message(),
        }
    }
}

/// A core-side processing failure.
#[derive(Debug, Clone, PartialEq, Eq)]
pub enum CommonError {
    Unknown,
    /// The response bytes could not be decoded into the requested shape;
    /// carries the shape's name for diagnostics.
    NetworkResponseJSONDeserialize { into_type: String },
    /// The response carried a status code outside the success range.
    NetworkResponseBadCode,
    /// An outbound body could not be serialized.
    FailedToSerializeToJSON,
    /// A failure the networking layer reported, carried unchanged.
    FromNetworkingError { from: NetworkingError },
}

impl CommonError {
    /// The human-readable text of this failure.
    pub open spec fn spec_message(&self) -> Seq<char> {
        match self {
            CommonError::Unknown => "Unknown Error"@,
            CommonError::NetworkResponseJSONDeserialize { .. } => {
                "Networking Error - failed to deserialize"@
            },
            CommonError::NetworkResponseBadCode => "Bad code response"@,
            CommonError::FailedToSerializeToJSON => "Failed to serialize JSON"@,
            CommonError::FromNetworkingError { .. } => "From Networking Error"@,
        }
    }

    pub fn message(&self) -> (r: String)
        ensures
            r@ == self.spec_message(),
    {
        match self {
            CommonError::Unknown => "Unknown Error".to_owned(),
            CommonError::NetworkResponseJSONDeserialize { .. } => {
                "Networking Error - failed to deserialize".to_owned()
            },
            CommonError::NetworkResponseBadCode => "Bad code response".to_owned(),
            CommonError::FailedToSerializeToJSON => "Failed to serialize JSON".to_owned(),
            CommonError::FromNetworkingError { .. } => "From Networking Error".to_owned(),
        }
    }
}

/// A failure surfaced back across the exposed boundary.
#[derive(Debug, Clone, PartialEq, Eq)]
pub enum RustSideError {
    /// An I/O failure, with the underlying message.
    IOError { error: String },
    NoResponseCode,
    BadResponseCode,
    /// A decode failure, with the target shape's name.
    UnableJSONDeserializeHTTPResponseBodyIntoTypeName { into_type: String },
    FailedToReceiveResponseFromSwift,
    FailedToPropagateResultFromFFIOperationBackToDispatcher,
    ResponseBodyWasNil,
    WrongFFIOperationOKExpectedFFINetworkingResponse,
    /// A networking failure wrapped with its message.
    NetworkingError { error: String },
}

impl RustSideError {
    /// The human-readable text of this failure.
    pub open spec fn spec_message(&self) -> Seq<char> {
        match self {
            RustSideError::IOError { .. } => "IO Error"@,
            RustSideError::NoResponseCode => "No response code"@,
            RustSideError::BadResponseCode => "Bad response code"@,
            RustSideError::UnableJSONDeserializeHTTPResponseBodyIntoTypeName { into_type } => {
                "Unable to JSON deserialize HTTP response body into type: "@ + into_type@
            },
            RustSideError::FailedToReceiveResponseFromSwift => {
                "Failed to receive response from Swift"@
            },
            RustSideError::FailedToPropagateResultFromFFIOperationBackToDispatcher => {
                "Failed to propagate FFI operation result back to dispatcher"@
            },
            RustSideError::ResponseBodyWasNil => "HTTP Body of response from Swift was nil"@,
            RustSideError::WrongFFIOperationOKExpectedFFINetworkingResponse => {
                "Wrong response kind from FFIOperationOk, expected FFINetworkingResponse"@
            },
            RustSideError::NetworkingError { error } => "Networking Error: "@ + error@,
        }
    }

    pub fn message(&self) -> (r: String)
        ensures
            r@ == self.spec_message(),
    {
        match self {
            RustSideError::IOError { .. } => "IO Error".to_owned(),
            RustSideError::NoResponseCode => "No response code".to_owned(),
            RustSideError::BadResponseCode => "Bad response code".to_owned(),
            RustSideError::UnableJSONDeserializeHTTPResponseBodyIntoTypeName { into_type } => {
                let mut s = "Unable to JSON deserialize HTTP response body into type: ".to_owned();
                s.append(into_type.as_str());
                s
            },
            RustSideError::FailedToReceiveResponseFromSwift => {
                "Failed to receive response from Swift".to_owned()
            },
            RustSideError::FailedToPropagateResultFromFFIOperationBackToDispatcher => {
                "Failed to propagate FFI operation result back to dispatcher".to_owned()
            },
            RustSideError::ResponseBodyWasNil => {
                "HTTP Body of response from Swift was nil".to_owned()
            },
            RustSideError::WrongFFIOperationOKExpectedFFINetworkingResponse => {
                "Wrong response kind from FFIOperationOk, expected FFINetworkingResponse".to_owned()
            },
            RustSideError::NetworkingError { error } => {
                let mut s = "Networking Error: ".to_owned();
                s.append(error.as_str());
                s
            },
        }
    }
}

/// The combined boundary error: a failure raised on either side of the
/// capability boundary, represented without loss of classification.
#[derive(Debug, Clone, PartialEq, Eq)]
pub enum FFIBridgeError {
    FromRust { error: RustSideError },
    FromFFI { error: FFISideError },
}

impl FFIBridgeError {
    /// The human-readable text of this failure.
    pub open spec fn spec_message(&self) -> Seq<char> {
        match self {
            FFIBridgeError::FromRust { error } => error.spec_message(),
            FFIBridgeError::FromFFI { error } => error.spec_message(),
        }
    }

    pub fn message(&self) -> (r: String)
        ensures
            r@ == self.spec_message(),
    {
        match self {
            FFIBridgeError::FromRust { error } => error.message(),
            FFIBridgeError::FromFFI { error } => error.message(),
        }
    }
}

} // verus!
