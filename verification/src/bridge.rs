//! The boundary decision at the bridge's single entry point.
//!
//! Every call flows strictly one way: decode, execute, encode. The host
//! integration performs the outside steps of the execution (see
//! [`crate::session`]); the decision that guards them stands here: a request
//! that does not decode is answered with the fixed parse-failure value, and
//! execution is never reached.

use vstd::prelude::*;

use crate::decode::{decode_request, decoded_request, wf_request_value};
use crate::encode::{encode_parse_failure, error_message_of, is_error_value};
use crate::host_value::HostValue;
use crate::request::ExecutionRequest;

verus! {

/// Decode the opaque request, or answer it. A request exists afterwards
/// exactly when the value met every requirement; otherwise the answer is the
/// error-shaped parse-failure value, and nothing was partially populated.
pub fn accept_request(v: &HostValue) -> (r: Result<ExecutionRequest, HostValue>)
    ensures
        r is Ok <==> wf_request_value(*v),
        (r matches Ok(req) ==> decoded_request(*v, req)),
        (r matches Err(answer) ==> is_error_value(answer) && error_message_of(answer)
            == "Failed to parse wasi execution request"@),
{
    match decode_request(v) {
        Ok(req) => Ok(req),
        Err(_) => Err(encode_parse_failure()),
    }
}

} // verus!
