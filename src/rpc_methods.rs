use vstd::prelude::*;

use crate::errors::{AtollError, AtollResult, Minreq};
use crate::rpc_requests::{HttpResponse, RequestOutcome, RpcJsonError, RpcResponse};
use std::collections::HashMap;

verus! {

/// The calls that this client supports.
#[derive(Debug, Clone, Copy, PartialEq, Eq, Structural, PartialOrd, Ord)]
pub enum RpcMethod {
    GetAccountInfo,
    GetBalance,
    GetBlock,
    GetBlockHeight,
}

/// The name of each method on the wire.
pub open spec fn method_wire_name(m: RpcMethod) -> Seq<char> {
    match m {
        RpcMethod::GetAccountInfo => "getAccountInfo"@,
        RpcMethod::GetBalance => "getBalance"@,
        RpcMethod::GetBlock => "getBlock"@,
        RpcMethod::GetBlockHeight => "getBlockHeight"@,
    }
}

/// What a response body comes to, from the two attempts to read it: first as a
/// success envelope, then as an error envelope. The success shape wins where both
/// would match; where neither does, the diagnostic of the first attempt is kept.
pub open spec fn outcome_of<T>(
    success: Result<RpcResponse<T>, String>,
    error_envelope: Result<RpcJsonError, String>,
) -> AtollResult<RequestOutcome<T>> {
    match success {
        Ok(response) => Ok(RequestOutcome::Success(response)),
        Err(diagnostic) => match error_envelope {
            Ok(json_error) => Ok(RequestOutcome::InvalidJson(json_error)),
            Err(_) => Err(AtollError::SerdeJsonDeser(diagnostic)),
        },
    }
}

/// The body of a response, where there is one to decode: an empty body is a
/// failure of the exchange and never reaches the decoding.
pub fn response_body<'a>(body: &'a str) -> (r: AtollResult<&'a str>)
    ensures
        body@.len() == 0 ==> r == Err::<&'a str, AtollError>(AtollError::Http(Minreq::EmptyBody)),
        body@.len() > 0 ==> r == Ok::<&'a str, AtollError>(body),
{
    if body.is_empty() {
        Err(AtollError::Http(Minreq::EmptyBody))
    } else {
        Ok(body)
    }
}

impl RpcMethod {
    /// The name of the method on the wire.
    pub fn to_upper_camel_case(&self) -> (r: &'static str)
        ensures
            r@ == method_wire_name(*self),
    {
        match self {
            RpcMethod::GetAccountInfo => "getAccountInfo",
            RpcMethod::GetBalance => "getBalance",
            RpcMethod::GetBlock => "getBlock",
            RpcMethod::GetBlockHeight => "getBlockHeight",
        }
    }

    /// Decides the outcome of a response body from the two attempts to read it:
    /// `success` as a success envelope (or the diagnostic of where that failed),
    /// `error_envelope` as a protocol error envelope.
    pub fn is_ok_or<T>(
        &self,
        success: Result<RpcResponse<T>, String>,
        error_envelope: Result<RpcJsonError, String>,
    ) -> (r: AtollResult<RequestOutcome<T>>)
        ensures
            r == outcome_of(success, error_envelope),
            success is Ok ==> (r matches Ok(RequestOutcome::Success(resp)) && resp
                == success->Ok_0),
            success is Err && error_envelope is Ok ==> (r matches Ok(
                RequestOutcome::InvalidJson(e),
            ) && e == error_envelope->Ok_0),
            success is Err && error_envelope is Err ==> r == Err::<RequestOutcome<T>, AtollError>(
                AtollError::SerdeJsonDeser(success->Err_0),
            ),
    {
        match success {
            Ok(response) => Ok(RequestOutcome::Success(response)),
            Err(diagnostic) => match error_envelope {
                Ok(json_error) => Ok(RequestOutcome::InvalidJson(json_error)),
                Err(_) => Err(AtollError::SerdeJsonDeser(diagnostic)),
            },
        }
    }

    /// Puts a decoded body together with the status line and headers it came with.
    pub fn build_http_response<T>(
        &self,
        status_code: i32,
        headers: HashMap<String, String>,
        reason_phrase: String,
        body: RequestOutcome<T>,
    ) -> (r: HttpResponse<T>)
        ensures
            r.status_code == status_code as u16,
            r.headers == headers,
            r.reason_phrase == reason_phrase,
            r.body == body,
    {
        HttpResponse { status_code: status_code as u16, headers, reason_phrase, body }
    }

    /// The response to a call of this method: the outcome of its body, as
    /// `is_ok_or` decides it, with the status line and headers; or the error that
    /// `is_ok_or` gives.
    pub fn parse<T>(
        &self,
        status_code: i32,
        headers: HashMap<String, String>,
        reason_phrase: String,
        success: Result<RpcResponse<T>, String>,
        error_envelope: Result<RpcJsonError, String>,
    ) -> (r: AtollResult<HttpResponse<T>>)
        ensures
            match outcome_of(success, error_envelope) {
                Ok(body) => (r matches Ok(h) && h.status_code == status_code as u16 && h.headers
                    == headers && h.reason_phrase == reason_phrase && h.body == body),
                Err(e) => r == Err::<HttpResponse<T>, AtollError>(e),
            },
    {
        match self.is_ok_or(success, error_envelope) {
            Ok(body) => Ok(self.build_http_response(status_code, headers, reason_phrase, body)),
            Err(e) => Err(e),
        }
    }
}

} // verus!
