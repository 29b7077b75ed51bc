//! The decoding client. It wraps the antenna capability, validates the
//! status code of every response the antenna reports as successful, and
//! classifies each failure: networking failures are carried through, a
//! status code outside 200..=299 is a bad-code failure of the core's own
//! validation layer, and only a response that passed both is handed to a
//! decoder — a decode failure is classified with the target shape's name.

use vstd::prelude::*;

use crate::errors::{CommonError, NetworkingError};
use crate::network_antenna::{FFINetworkingResponse, NetworkAntenna};
use crate::network_request::NetworkRequest;

verus! {

/// Classifies one raw antenna outcome. This is the core's whole
/// validation rule: an antenna failure becomes a networking failure, a
/// status code outside 200..=299 becomes a bad-code failure even though
/// the antenna reported success, and only a success in range yields the
/// body, byte for byte.
pub fn response_into_body(outcome: Result<FFINetworkingResponse, NetworkingError>) -> (r: Result<
    Vec<u8>,
    CommonError,
>)
    ensures
        match outcome {
            Ok(response) => {
                if 200 <= response.status_code <= 299 {
                    r matches Ok(body) && body == response.body
                } else {
                    r == Err::<Vec<u8>, CommonError>(CommonError::NetworkResponseBadCode)
                }
            },
            Err(e) => r == Err::<Vec<u8>, CommonError>(
                CommonError::FromNetworkingError { from: e },
            ),
        },
{
    match outcome {
        Ok(response) => {
            if 200 <= response.status_code && response.status_code <= 299 {
                Ok(response.body)
            } else {
                Err(CommonError::NetworkResponseBadCode)
            }
        },
        Err(e) => Err(CommonError::FromNetworkingError { from: e }),
    }
}

/// Classifies one decode outcome: a decoded value is returned as it is,
/// and a failed decode becomes a deserialize failure carrying the target
/// shape's name.
pub fn model_from_response<U>(outcome: Option<U>, into_type: String) -> (r: Result<
    U,
    CommonError,
>)
    ensures
        match outcome {
            Some(value) => r matches Ok(v) && v == value,
            None => r == Err::<U, CommonError>(
                CommonError::NetworkResponseJSONDeserialize { into_type },
            ),
        },
{
    match outcome {
        Some(value) => Ok(value),
        None => Err(CommonError::NetworkResponseJSONDeserialize { into_type }),
    }
}

/// The decoding client: the antenna capability behind the core's own
/// validation layer.
pub struct HttpClient<A: NetworkAntenna> {
    pub network_antenna: A,
}

impl<A: NetworkAntenna> HttpClient<A> {
    pub fn new(network_antenna: A) -> (r: Self)
        ensures
            r.network_antenna == network_antenna,
    {
        Self { network_antenna }
    }

    /// Executes a request through the antenna and validates the outcome.
    /// Whatever the antenna returns, a failure of this call is either a
    /// carried networking failure or the bad-code classification — never
    /// a decode failure.
    pub fn execute_network_request(&self, request: NetworkRequest) -> (r: Result<
        Vec<u8>,
        CommonError,
    >)
        ensures
            r matches Err(e) ==> (e matches CommonError::FromNetworkingError { .. } || e
                == CommonError::NetworkResponseBadCode),
    {
        let outcome = self.network_antenna.execute_network_request(request);
        response_into_body(outcome)
    }

    /// Executes a request, validates the status code, and only then hands
    /// the body to `decode`; a failed decode is classified with
    /// `into_type`, the target shape's name. A response whose status code
    /// fails validation is never handed to `decode`.
    pub fn execute_request_with_decoding<U, F: FnOnce(Vec<u8>) -> Option<U>>(
        &self,
        request: NetworkRequest,
        decode: F,
        into_type: String,
    ) -> (r: Result<U, CommonError>)
        requires
            forall|b: Vec<u8>| #[trigger] decode.requires((b,)),
        ensures
            r matches Err(e) ==> (e matches CommonError::FromNetworkingError { .. } || e
                == CommonError::NetworkResponseBadCode || (e
                matches CommonError::NetworkResponseJSONDeserialize { into_type: t } && t
                == into_type)),
            r matches Ok(v) ==> exists|b: Vec<u8>| #[trigger] decode.ensures((b,), Some(v)),
    {
        let body = match self.execute_network_request(request) {
            Ok(body) => body,
            Err(e) => {
                return Err(e);
            },
        };
        let outcome = decode(body);
        model_from_response(outcome, into_type)
    }
}

} // verus!
