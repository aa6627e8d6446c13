use vstd::prelude::*;

mod block;
mod errors;
mod rpc_api;
mod rpc_methods;
mod rpc_options;
mod rpc_requests;

pub use block::{
    AccountMeta, InnerInstructions, Instruction, LoadedAddresses, RewardType, Rewards,
    TransactionReturnData,
};
pub use errors::{
    lemma_transport_kind_round_trip, lemma_transport_mapping_one_to_one,
    transport_kind, transport_maps_to, transport_payload, unified_kind,
    unified_payload, utf8_error_text_of, utilities_error_of_io, AtollError, AtollResult, Minreq,
};
pub use rpc_options::{
    cluster_url, commitment_name, commitment_of, encoding_name, encoding_of,
    lemma_commitment_name_round_trip, lemma_encoding_name_round_trip, lower_of, Cluster,
    Commitment, Encoding,
};
pub use rpc_api::GetAccountInfo;
pub use rpc_methods::{method_wire_name, outcome_of, response_body, RpcMethod};
pub use rpc_requests::{
    array_text, envelope_entries, joined, params_items,
    decimal_of, digit_text, dump_of, entries_view, escaped_char, escaped_text, hex_digits, envelope_text, folded, fresh_request, insert_entry,
    keys_unique, lemma_folded_keys_unique, lemma_folded_last_value_wins, lemma_insert_keeps_keys_unique, lemma_insert_new_key, lemma_params_round_trip, lemma_repeated_key_last_value_wins,
    lemma_seal_deterministic, member_text, members_text, object_entries, object_text, params_text, quoted_of, value_text,
    Context, Entry, HttpResponse, JsonError, MalformedRequest, RequestOutcome, RpcJsonError,
    RpcRequest, RpcRequestView, RpcResponse, RpcResult,
};

verus! {

/// The number of lamports in one SOL.
pub const LAMPORTS: u64 = 1_000_000_000;

} // verus!
