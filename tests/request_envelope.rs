use atoll::{Cluster, Commitment, Encoding, RpcMethod, RpcRequest};
use json::JsonValue;

const ADDRESS: &str = "11111111111111111111111111111111";

#[test]
fn defaults_seal_to_a_null_primary_value() {
    let body = RpcRequest::new().seal();
    assert_eq!(body, r#"{"jsonrpc":"2.0","id":1,"method":"getAccountInfo","params":[null]}"#);
    assert_eq!(RpcRequest::default().seal(), body);
}

#[test]
fn get_balance_on_devnet_has_one_parameter() {
    let request = RpcRequest::new()
        .add_method(RpcMethod::GetBalance)
        .change_cluster(Cluster::DevNet)
        .add_value(JsonValue::from(ADDRESS));
    let body = request.seal();
    let parsed = json::parse(&body).unwrap();
    assert_eq!(parsed["method"], "getBalance");
    assert_eq!(parsed["params"].len(), 1);
    assert_eq!(parsed["params"][0], ADDRESS);
    assert_eq!(
        body,
        r#"{"jsonrpc":"2.0","id":1,"method":"getBalance","params":["11111111111111111111111111111111"]}"#
    );
}

#[test]
fn extras_follow_the_primary_value_in_insertion_order() {
    let body = RpcRequest::new()
        .add_method(RpcMethod::GetBlock)
        .add_value(JsonValue::from(430u64))
        .add_extra("encoding", JsonValue::from("json"))
        .add_extra("commitment", JsonValue::from("finalized"))
        .seal();
    assert_eq!(
        body,
        r#"{"jsonrpc":"2.0","id":1,"method":"getBlock","params":[430,{"encoding":"json","commitment":"finalized"}]}"#
    );
}

#[test]
fn repeated_extra_key_keeps_first_place_and_last_value() {
    let body = RpcRequest::new()
        .add_value(JsonValue::from(ADDRESS))
        .add_extra("encoding", JsonValue::from("base58"))
        .add_extra("commitment", JsonValue::from("confirmed"))
        .add_extra("encoding", JsonValue::from("base64"))
        .seal();
    assert_eq!(
        body,
        r#"{"jsonrpc":"2.0","id":1,"method":"getAccountInfo","params":["11111111111111111111111111111111",{"encoding":"base64","commitment":"confirmed"}]}"#
    );
}

#[test]
fn identifier_and_version_are_written_as_json() {
    let body = RpcRequest::new()
        .change_id(255)
        .change_jsonrpc("1.\"0")
        .add_method(RpcMethod::GetBlockHeight)
        .seal();
    assert_eq!(body, r#"{"jsonrpc":"1.\"0","id":255,"method":"getBlockHeight","params":[null]}"#);
    let body = RpcRequest::new().change_id(0).seal();
    assert!(body.contains(r#""id":0,"#));
    let body = RpcRequest::new().change_id(42).seal();
    assert!(body.contains(r#""id":42,"#));
}

#[test]
fn sealing_twice_gives_identical_text() {
    let mut array = JsonValue::new_array();
    array.push(1).unwrap();
    array.push("two").unwrap();
    let request = RpcRequest::new()
        .add_method(RpcMethod::GetBlock)
        .add_value(array)
        .add_extra("maxSupportedTransactionVersion", JsonValue::from(0));
    let first = request.seal();
    let second = request.seal();
    assert_eq!(first, second);
    assert!(first.contains(r#""params":[[1,"two"],{"maxSupportedTransactionVersion":0}]"#));
}

#[test]
fn method_wire_names() {
    assert_eq!(RpcMethod::GetAccountInfo.to_upper_camel_case(), "getAccountInfo");
    assert_eq!(RpcMethod::GetBalance.to_upper_camel_case(), "getBalance");
    assert_eq!(RpcMethod::GetBlock.to_upper_camel_case(), "getBlock");
    assert_eq!(RpcMethod::GetBlockHeight.to_upper_camel_case(), "getBlockHeight");
}

#[test]
fn cluster_urls_and_default() {
    assert_eq!(Cluster::LocalNet.url(), "https://127.0.0.1:8899");
    assert_eq!(Cluster::DevNet.url(), "https://api.devnet.solana.com");
    assert_eq!(Cluster::TestNet.url(), "https://api.testnet.solana.com");
    assert_eq!(Cluster::MainNetBeta.url(), "https://api.mainnet-beta.solana.com");
    assert_eq!(Cluster::default(), Cluster::DevNet);
}

#[test]
fn commitment_names_read_without_regard_to_case() {
    assert_eq!(Commitment::from("processed"), Commitment::Processed);
    assert_eq!(Commitment::from("CONFIRMED"), Commitment::Confirmed);
    assert_eq!(Commitment::from("Finalized"), Commitment::Finalized);
    assert_eq!(Commitment::from("final"), Commitment::InvalidCommitment);
    assert_eq!(Commitment::from(""), Commitment::InvalidCommitment);
    assert_eq!(Commitment::from_lowercase("Processed"), Commitment::InvalidCommitment);
    assert_eq!(Commitment::default(), Commitment::Finalized);
    assert_eq!(Commitment::Processed.as_str(), "processed");
    assert_eq!(Commitment::InvalidCommitment.as_str(), "invalid_commitment");
}

#[test]
fn encoding_names_read_without_regard_to_case() {
    assert_eq!(Encoding::from("base58"), Encoding::Base58);
    assert_eq!(Encoding::from("BASE64"), Encoding::Base64);
    assert_eq!(Encoding::from("jsonParsed"), Encoding::UnsupportedEncoding);
    assert_eq!(Encoding::from_lowercase("base64"), Encoding::Base64);
    assert_eq!(Encoding::Base58.as_str(), "base58");
    assert_eq!(Encoding::UnsupportedEncoding.as_str(), "unsupported_encoding");
}

#[test]
fn control_characters_are_escaped_as_json_does() {
    let body = RpcRequest::new()
        .change_jsonrpc("a\tb\u{1}c\\")
        .add_value(JsonValue::from(true))
        .add_extra("line\nbreak", JsonValue::Null)
        .seal();
    assert_eq!(
        body,
        r#"{"jsonrpc":"a\tb\u0001c\\","id":1,"method":"getAccountInfo","params":[true,{"line\nbreak":null}]}"#
    );
}

#[test]
fn add_value_stores_the_given_value() {
    let mut object = JsonValue::new_object();
    object.insert("k", "v").unwrap();
    let body = RpcRequest::new().add_value(object).seal();
    assert!(body.ends_with(r#""params":[{"k":"v"}]}"#));
}
