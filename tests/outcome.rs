use atoll::{
    AtollError, JsonError, RequestOutcome, RpcJsonError, RpcMethod, RpcResponse,
};
use std::collections::HashMap;

fn balance_error() -> RpcJsonError {
    RpcJsonError {
        jsonrpc: "2.0".to_string(),
        id: 1,
        error: JsonError { code: -32602, message: "Invalid params".to_string(), data: None },
    }
}

#[test]
fn success_envelope_keeps_result_and_id() {
    let success = Ok(RpcResponse { jsonrpc: "2.0".to_string(), id: 7, result: 42u64 });
    let outcome = RpcMethod::GetBalance.is_ok_or(success, Err("unused".to_string())).unwrap();
    match outcome {
        RequestOutcome::Success(response) => {
            assert_eq!(response.id, 7);
            assert_eq!(response.result, 42);
            assert_eq!(response.jsonrpc, "2.0");
        }
        RequestOutcome::InvalidJson(_) => panic!("expected a success"),
    }
}

#[test]
fn success_shape_wins_over_error_shape() {
    let success = Ok(RpcResponse { jsonrpc: "2.0".to_string(), id: 1, result: 3u8 });
    let outcome = RpcMethod::GetBlock.is_ok_or(success, Ok(balance_error())).unwrap();
    assert!(matches!(outcome, RequestOutcome::Success(RpcResponse { result: 3, .. })));
}

#[test]
fn error_envelope_keeps_code_message_and_data() {
    let expected = RpcJsonError {
        jsonrpc: "2.0".to_string(),
        id: 3,
        error: JsonError {
            code: -32000,
            message: "Slot skipped".to_string(),
            data: Some("slot 5".to_string()),
        },
    };
    let envelope = RpcJsonError {
        jsonrpc: "2.0".to_string(),
        id: 3,
        error: JsonError {
            code: -32000,
            message: "Slot skipped".to_string(),
            data: Some("slot 5".to_string()),
        },
    };
    let success: Result<RpcResponse<u64>, String> = Err("missing field `result`".to_string());
    let outcome = RpcMethod::GetBlock.is_ok_or(success, Ok(envelope)).unwrap();
    assert_eq!(outcome, RequestOutcome::InvalidJson(expected));
}

#[test]
fn invalid_params_response_is_invalid_json_with_its_code() {
    let success: Result<RpcResponse<u64>, String> =
        Err("missing field `result` at line 1 column 79".to_string());
    let outcome = RpcMethod::GetBalance.is_ok_or(success, Ok(balance_error())).unwrap();
    match outcome {
        RequestOutcome::InvalidJson(e) => {
            assert_eq!(e.error.code, -32602);
            assert_eq!(e.error.message, "Invalid params");
            assert_eq!(e.error.data, None);
        }
        RequestOutcome::Success(_) => panic!("expected an error envelope"),
    }
}

#[test]
fn unrecognized_body_gives_the_first_diagnostic() {
    let first = "missing field `jsonrpc` at line 1 column 20".to_string();
    let success: Result<RpcResponse<u64>, String> = Err(first.clone());
    let second: Result<RpcJsonError, String> = Err("missing field `error`".to_string());
    let r = RpcMethod::GetBalance.is_ok_or(success, second);
    assert_eq!(r, Err(AtollError::SerdeJsonDeser(first)));
}

#[test]
fn parse_wraps_the_outcome_with_the_status_line() {
    let mut headers = HashMap::new();
    headers.insert("content-type".to_string(), "application/json".to_string());
    let success = Ok(RpcResponse { jsonrpc: "2.0".to_string(), id: 1, result: 10u64 });
    let response = RpcMethod::GetBlockHeight
        .parse(200, headers.clone(), "OK".to_string(), success, Err(String::new()))
        .unwrap();
    assert_eq!(response.status_code, 200);
    assert_eq!(response.headers, headers);
    assert_eq!(response.reason_phrase, "OK");
    assert!(matches!(response.body, RequestOutcome::Success(RpcResponse { result: 10, .. })));
}

#[test]
fn parse_passes_on_the_decode_error() {
    let success: Result<RpcResponse<u64>, String> = Err("expected value".to_string());
    let r = RpcMethod::GetBalance.parse(
        200,
        HashMap::new(),
        "OK".to_string(),
        success,
        Err("expected value".to_string()),
    );
    assert!(matches!(r, Err(AtollError::SerdeJsonDeser(m)) if m == "expected value"));
}

#[test]
fn empty_body_is_a_transport_failure() {
    assert_eq!(
        atoll::response_body(""),
        Err(AtollError::Http(atoll::Minreq::EmptyBody))
    );
}

#[test]
fn non_empty_body_is_handed_on_unchanged() {
    let body = r#"{"not":"recognized"}"#;
    assert_eq!(atoll::response_body(body), Ok(body));
}
