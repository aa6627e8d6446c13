use vstd::prelude::*;
use vstd::string::*;

use crate::rpc_methods::{method_wire_name, RpcMethod};
use crate::rpc_options::Cluster;
use std::collections::HashMap;

verus! {

#[verifier::external_type_specification]
#[verifier::external_body]
pub struct ExJsonValue(json::JsonValue);

/// A key of an object and the JSON text of its value.
pub type Entry = (Seq<char>, Seq<char>);

/// Lower-case hexadecimal digits.
pub open spec fn hex_digits() -> Seq<char> {
    seq!['0', '1', '2', '3', '4', '5', '6', '7', '8', '9', 'a', 'b', 'c', 'd', 'e', 'f']
}

/// How a JSON string literal writes one character: a quote, a backslash and the
/// control characters are escaped, those without a short escape as `\u00XX`;
/// every other character stands as it is.
pub open spec fn escaped_char(c: char) -> Seq<char> {
    if c == '"' {
        seq!['\\', '"']
    } else if c == '\\' {
        seq!['\\', '\\']
    } else if c == '\u{8}' {
        seq!['\\', 'b']
    } else if c == '\t' {
        seq!['\\', 't']
    } else if c == '\n' {
        seq!['\\', 'n']
    } else if c == '\u{c}' {
        seq!['\\', 'f']
    } else if c == '\r' {
        seq!['\\', 'r']
    } else if (c as u32) < 0x20 {
        seq!['\\', 'u', '0', '0', hex_digits()[(c as u32 / 16) as int], hex_digits()[(c as u32 % 16) as int]]
    } else {
        seq![c]
    }
}

/// The characters of a text as a JSON string literal writes them, without the quotes.
pub open spec fn escaped_text(s: Seq<char>) -> Seq<char>
    decreases s.len(),
{
    if s.len() == 0 {
        Seq::empty()
    } else {
        escaped_text(s.drop_last()) + escaped_char(s.last())
    }
}

/// The JSON string literal of a text: its escaped characters between quotes.
pub open spec fn quoted_of(s: Seq<char>) -> Seq<char> {
    seq!['"'] + escaped_text(s) + seq!['"']
}

#[verifier::external_type_specification]
#[verifier::external_body]
pub struct ExJsonObject(json::object::Object);

/// The name for the compact JSON text that `json::JsonValue::dump` gives a value.
pub uninterp spec fn dump_of(v: json::JsonValue) -> Seq<char>;

/// The name for what a `json::object::Object` holds: its keys in the order of its
/// store, each with the compact JSON text of its value.
pub uninterp spec fn object_entries(o: json::object::Object) -> Seq<Entry>;

/// Relies on `json::JsonValue::dump`: the compact JSON text of the value.
#[verifier::external_body]
fn render(value: &json::JsonValue) -> (r: String)
    ensures
        r@ == dump_of(*value),
{
    value.dump()
}

/// Relies on `json::JsonValue::clone`: a copy, which dumps to the same text.
#[verifier::external_body]
fn copy_value(value: &json::JsonValue) -> (r: json::JsonValue)
    ensures
        dump_of(r) == dump_of(*value),
{
    value.clone()
}

/// Relies on `json::JsonValue::from` on a string: a string value, which dumps as
/// the JSON literal of the text.
#[verifier::external_body]
fn json_string(s: &str) -> (r: json::JsonValue)
    ensures
        dump_of(r) == quoted_of(s@),
{
    json::JsonValue::from(s)
}

/// Relies on `json::JsonValue::from` on a `u8`: a number with exponent 0, which
/// dumps as its decimal digits.
#[verifier::external_body]
fn json_number(n: u8) -> (r: json::JsonValue)
    ensures
        dump_of(r) == decimal_of(n),
{
    json::JsonValue::from(n)
}

/// Relies on `json::JsonValue::Null`, which dumps as `null`.
#[verifier::external_body]
fn json_null() -> (r: json::JsonValue)
    ensures
        dump_of(r) == "null"@,
{
    json::JsonValue::Null
}

/// Relies on `json::JsonValue::Array`: brackets round the items' texts, in order,
/// separated by commas.
#[verifier::external_body]
fn json_array(items: Vec<json::JsonValue>) -> (r: json::JsonValue)
    ensures
        dump_of(r) == array_text(items@.map_values(|v: json::JsonValue| dump_of(v))),
{
    json::JsonValue::Array(items)
}

/// Relies on `json::JsonValue::Object` and `Object`'s writer: braces round the
/// members in the order of the store, each the key as a JSON string, a colon and
/// the value's text, separated by commas.
#[verifier::external_body]
fn json_object(o: json::object::Object) -> (r: json::JsonValue)
    ensures
        dump_of(r) == object_text(object_entries(o)),
{
    json::JsonValue::Object(o)
}

/// Relies on `json::object::Object::new`: an object with an empty store.
#[verifier::external_body]
fn new_object() -> (r: json::object::Object)
    ensures
        object_entries(r) == Seq::<Entry>::empty(),
{
    json::object::Object::new()
}

/// Relies on `json::object::Object::insert`: a key already in the store takes the
/// new value in its place; a new key is pushed at the end of the store.
#[verifier::external_body]
fn object_insert(o: &mut json::object::Object, key: &str, value: json::JsonValue)
    requires
        keys_unique(object_entries(*old(o))),
    ensures
        object_entries(*final(o)) == insert_entry(object_entries(*old(o)), key@, dump_of(value)),
{
    o.insert(key, value)
}

/// The text of one decimal digit.
pub open spec fn digit_text(d: int) -> Seq<char> {
    if d == 0 {
        "0"@
    } else if d == 1 {
        "1"@
    } else if d == 2 {
        "2"@
    } else if d == 3 {
        "3"@
    } else if d == 4 {
        "4"@
    } else if d == 5 {
        "5"@
    } else if d == 6 {
        "6"@
    } else if d == 7 {
        "7"@
    } else if d == 8 {
        "8"@
    } else {
        "9"@
    }
}

/// The decimal text of a byte, without leading zeros.
pub open spec fn decimal_of(n: u8) -> Seq<char> {
    if n < 10 {
        digit_text(n as int)
    } else if n < 100 {
        digit_text((n / 10) as int) + digit_text((n % 10) as int)
    } else {
        digit_text((n / 100) as int) + digit_text(((n / 10) % 10) as int) + digit_text((n % 10) as int)
    }
}

/// The entries after `key` is set to `value`: a key already present keeps its
/// place and takes the new value; a new key goes last.
pub open spec fn insert_entry(entries: Seq<Entry>, key: Seq<char>, value: Seq<char>) -> Seq<
    Entry,
> {
    if exists|i: int| 0 <= i < entries.len() && (#[trigger] entries[i]).0 == key {
        let i = choose|i: int| 0 <= i < entries.len() && (#[trigger] entries[i]).0 == key;
        entries.update(i, (key, value))
    } else {
        entries.push((key, value))
    }
}

/// The object that the extras make, inserted in the order they were added: each
/// key once, at the place of its first addition, with the value of its last.
pub open spec fn folded(extras: Seq<Entry>) -> Seq<Entry>
    decreases extras.len(),
{
    if extras.len() == 0 {
        Seq::empty()
    } else {
        let last = extras.last();
        insert_entry(folded(extras.drop_last()), last.0, last.1)
    }
}

/// No key occurs twice.
pub open spec fn keys_unique(entries: Seq<Entry>) -> bool {
    forall|i: int, j: int|
        0 <= i < entries.len() && 0 <= j < entries.len() && i != j ==> (#[trigger] entries[i]).0
            != (#[trigger] entries[j]).0
}

/// One member of an object: the quoted key, a colon, the value.
pub open spec fn member_text(e: Entry) -> Seq<char> {
    quoted_of(e.0) + ":"@ + e.1
}

/// The members of an object, separated by commas.
pub open spec fn members_text(entries: Seq<Entry>) -> Seq<char>
    decreases entries.len(),
{
    if entries.len() == 0 {
        Seq::empty()
    } else if entries.len() == 1 {
        member_text(entries[0])
    } else {
        members_text(entries.drop_last()) + ","@ + member_text(entries.last())
    }
}

/// The text of an object with these entries.
pub open spec fn object_text(entries: Seq<Entry>) -> Seq<char> {
    "{"@ + members_text(entries) + "}"@
}

/// Texts separated by commas.
pub open spec fn joined(texts: Seq<Seq<char>>) -> Seq<char>
    decreases texts.len(),
{
    if texts.len() == 0 {
        Seq::empty()
    } else if texts.len() == 1 {
        texts[0]
    } else {
        joined(texts.drop_last()) + ","@ + texts.last()
    }
}

/// The text of an array whose items have these texts.
pub open spec fn array_text(texts: Seq<Seq<char>>) -> Seq<char> {
    "["@ + joined(texts) + "]"@
}

/// The text of the primary value: `null` where there is none.
pub open spec fn value_text(value: Option<Seq<char>>) -> Seq<char> {
    match value {
        Some(text) => text,
        None => "null"@,
    }
}

/// The texts of the positional parameters: the primary value alone, or the
/// primary value and the object of the extras where there are any.
pub open spec fn params_items(r: RpcRequestView) -> Seq<Seq<char>> {
    if r.extras.len() == 0 {
        seq![value_text(r.value)]
    } else {
        seq![value_text(r.value), object_text(folded(r.extras))]
    }
}

/// The text of the positional parameters.
pub open spec fn params_text(r: RpcRequestView) -> Seq<char> {
    array_text(params_items(r))
}

/// The members of the envelope, in the order they are written.
pub open spec fn envelope_entries(r: RpcRequestView) -> Seq<Entry> {
    seq![
        ("jsonrpc"@, quoted_of(r.jsonrpc)),
        ("id"@, decimal_of(r.id)),
        ("method"@, quoted_of(method_wire_name(r.method))),
        ("params"@, params_text(r)),
    ]
}

/// The JSON-RPC envelope of a request, as it is sent.
pub open spec fn envelope_text(r: RpcRequestView) -> Seq<char> {
    object_text(envelope_entries(r))
}

/// What a request holds, with each JSON value as its text.
pub struct RpcRequestView {
    pub jsonrpc: Seq<char>,
    pub id: u8,
    pub method: RpcMethod,
    pub value: Option<Seq<char>>,
    pub cluster: Cluster,
    pub extras: Seq<Entry>,
}

impl RpcRequestView {
    /// The request with one more extra parameter.
    pub open spec fn with_extra(self, key: Seq<char>, value: Seq<char>) -> RpcRequestView {
        RpcRequestView { extras: self.extras.push((key, value)), ..self }
    }
}

/// The view of a list of named values: each key with the JSON text of its value.
pub open spec fn entries_view(v: Seq<(String, json::JsonValue)>) -> Seq<Entry> {
    v.map_values(|p: (String, json::JsonValue)| (p.0@, dump_of(p.1)))
}

/// One pending call, built by chained updates and consumed when it is sent.
#[derive(Debug)]
pub struct RpcRequest {
    jsonrpc: String,
    id: u8,
    method: RpcMethod,
    value: Option<json::JsonValue>,
    cluster: Cluster,
    extras: Vec<(String, json::JsonValue)>,
}

impl View for RpcRequest {
    type V = RpcRequestView;

    closed spec fn view(&self) -> RpcRequestView {
        RpcRequestView {
            jsonrpc: self.jsonrpc@,
            id: self.id,
            method: self.method,
            value: match self.value {
                Some(v) => Some(dump_of(v)),
                None => None,
            },
            cluster: self.cluster,
            extras: entries_view(self.extras@),
        }
    }
}

/// A fresh request: protocol version "2.0", identifier 1, the first method, no
/// primary value, the developer cluster and no extras.
pub open spec fn fresh_request() -> RpcRequestView {
    RpcRequestView {
        jsonrpc: "2.0"@,
        id: 1,
        method: RpcMethod::GetAccountInfo,
        value: None,
        cluster: Cluster::DevNet,
        extras: Seq::empty(),
    }
}

impl Default for RpcRequest {
    fn default() -> (r: RpcRequest)
        ensures
            r@ == fresh_request(),
    {
        RpcRequest::new()
    }
}

/// Setting a key that is not present puts it last.
pub proof fn lemma_insert_new_key(entries: Seq<Entry>, key: Seq<char>, value: Seq<char>)
    requires
        forall|i: int| 0 <= i < entries.len() ==> (#[trigger] entries[i]).0 != key,
    ensures
        insert_entry(entries, key, value) == entries.push((key, value)),
{
}

/// Setting a key keeps the keys unique.
pub proof fn lemma_insert_keeps_keys_unique(entries: Seq<Entry>, key: Seq<char>, value: Seq<char>)
    requires
        keys_unique(entries),
    ensures
        keys_unique(insert_entry(entries, key, value)),
{
}

/// The extras folded into one object, as `folded` says.
fn fold_extras(extras: &Vec<(String, json::JsonValue)>) -> (r: json::object::Object)
    ensures
        object_entries(r) == folded(entries_view(extras@)),
{
    let ghost all = entries_view(extras@);
    let mut object = new_object();
    let mut i: usize = 0;
    while i < extras.len()
        invariant
            i <= extras.len(),
            all == entries_view(extras@),
            object_entries(object) == folded(all.take(i as int)),
            keys_unique(object_entries(object)),
        decreases extras.len() - i,
    {
        let ghost prefix = all.take(i as int + 1);
        assert(prefix.drop_last() =~= all.take(i as int));
        proof {
            lemma_insert_keeps_keys_unique(object_entries(object), all[i as int].0, all[i as int].1);
        }
        object_insert(&mut object, extras[i].0.as_str(), copy_value(&extras[i].1));
        i = i + 1;
    }
    assert(all.take(extras.len() as int) =~= all);
    object
}

impl RpcRequest {
    /// A request with the defaults: protocol version "2.0", identifier 1, the
    /// first method, no primary value, the developer cluster and no extras.
    pub fn new() -> (r: RpcRequest)
        ensures
            r@ == fresh_request(),
    {
        let r = RpcRequest {
            jsonrpc: String::from_str("2.0"),
            id: 1,
            method: RpcMethod::GetAccountInfo,
            value: None,
            cluster: Cluster::DevNet,
            extras: Vec::new(),
        };
        assert(r@.extras =~= Seq::<Entry>::empty());
        r
    }

    /// Sets the protocol version.
    pub fn change_jsonrpc(self, jsonrpc: &str) -> (r: RpcRequest)
        ensures
            r@ == (RpcRequestView { jsonrpc: jsonrpc@, ..self@ }),
    {
        let mut r = self;
        r.jsonrpc = String::from_str(jsonrpc);
        r
    }

    /// Sets the primary value.
    pub fn add_value(self, value: json::JsonValue) -> (r: RpcRequest)
        ensures
            r@ == (RpcRequestView { value: Some(dump_of(value)), ..self@ }),
    {
        let mut r = self;
        r.value = Some(value);
        r
    }

    /// Sets the cluster the request goes to.
    pub fn change_cluster(self, cluster: Cluster) -> (r: RpcRequest)
        ensures
            r@ == (RpcRequestView { cluster, ..self@ }),
    {
        let mut r = self;
        r.cluster = cluster;
        r
    }

    /// Sets the method.
    pub fn add_method(self, method: RpcMethod) -> (r: RpcRequest)
        ensures
            r@ == (RpcRequestView { method, ..self@ }),
    {
        let mut r = self;
        r.method = method;
        r
    }

    /// Adds a named parameter after those already added, keeping them all, also
    /// where a key repeats.
    pub fn add_extra(self, key: &str, value: json::JsonValue) -> (r: RpcRequest)
        ensures
            r@ == self@.with_extra(key@, dump_of(value)),
    {
        let ghost before = self@;
        let mut r = self;
        r.extras.push((String::from_str(key), value));
        assert(r@.extras =~= before.extras.push((key@, dump_of(value))));
        r
    }

    /// The JSON-RPC envelope of the request, as it is sent: the protocol version,
    /// the identifier, the method's wire name and the positional parameters.
    pub fn seal(&self) -> (r: String)
        ensures
            r@ == envelope_text(self@),
    {
        let ghost view = self@;
        let mut items: Vec<json::JsonValue> = Vec::new();
        let first = match &self.value {
            Some(v) => copy_value(v),
            None => json_null(),
        };
        items.push(first);
        if self.extras.len() > 0 {
            let object = fold_extras(&self.extras);
            items.push(json_object(object));
        }
        assert(items@.map_values(|v: json::JsonValue| dump_of(v)) =~= params_items(view));
        let params = json_array(items);
        let mut envelope = new_object();
        proof {
            reveal_strlit("jsonrpc");
            reveal_strlit("id");
            reveal_strlit("method");
            reveal_strlit("params");
        }
        let ghost all = envelope_entries(view);
        assert("id"@[0] != "jsonrpc"@[0]);
        assert("method"@[0] != "jsonrpc"@[0] && "method"@[0] != "id"@[0]);
        assert("params"@[0] != "jsonrpc"@[0] && "params"@[0] != "id"@[0]);
        object_insert(&mut envelope, "jsonrpc", json_string(self.jsonrpc.as_str()));
        assert(object_entries(envelope) =~= all.take(1));
        proof {
            lemma_insert_new_key(object_entries(envelope), all[1].0, all[1].1);
        }
        object_insert(&mut envelope, "id", json_number(self.id));
        assert(object_entries(envelope) =~= all.take(2));
        proof {
            lemma_insert_new_key(object_entries(envelope), all[2].0, all[2].1);
        }
        object_insert(&mut envelope, "method", json_string(self.method.to_upper_camel_case()));
        assert(object_entries(envelope) =~= all.take(3));
        proof {
            lemma_insert_new_key(object_entries(envelope), all[3].0, all[3].1);
        }
        object_insert(&mut envelope, "params", params);
        assert(object_entries(envelope) =~= envelope_entries(view));
        render(&json_object(envelope))
    }

    /// The cluster the request goes to.
    pub fn cluster(&self) -> (r: Cluster)
        ensures
            r == self@.cluster,
    {
        self.cluster
    }

    /// The method of the request.
    pub fn method(&self) -> (r: RpcMethod)
        ensures
            r == self@.method,
    {
        self.method
    }

    /// Sets the identifier of the call.
    pub fn change_id(self, id: u8) -> (r: RpcRequest)
        ensures
            r@ == (RpcRequestView { id, ..self@ }),
    {
        let mut r = self;
        r.id = id;
        r
    }
}

/// Without extras the parameters are the one-element array of the primary value.
/// After extras `(k1, v1)` and then `(k2, v2)` under distinct keys, they are the
/// primary value followed by an object that holds `k1` and then `k2`.
pub proof fn lemma_params_round_trip(
    r: RpcRequestView,
    k1: Seq<char>,
    v1: Seq<char>,
    k2: Seq<char>,
    v2: Seq<char>,
)
    requires
        r.extras.len() == 0,
        k1 != k2,
    ensures
        params_text(r) == "["@ + value_text(r.value) + "]"@,
        params_text(r.with_extra(k1, v1).with_extra(k2, v2)) == "["@ + value_text(r.value) + ","@
            + "{"@ + member_text((k1, v1)) + ","@ + member_text((k2, v2)) + "}"@ + "]"@,
{
    let extras = r.with_extra(k1, v1).with_extra(k2, v2).extras;
    let zero = extras.drop_last().drop_last();
    assert(folded(zero) =~= Seq::<Entry>::empty());
    assert(folded(extras.drop_last()) =~= seq![(k1, v1)]);
    let two = folded(extras);
    assert(members_text(two.drop_last()) == member_text((k1, v1)));
    let items = params_items(r.with_extra(k1, v1).with_extra(k2, v2));
    assert(items.drop_last() =~= seq![value_text(r.value)]);
    assert(joined(items.drop_last()) == value_text(r.value));
    assert(joined(items) == value_text(r.value) + ","@ + items[1]);
    assert(params_text(r.with_extra(k1, v1).with_extra(k2, v2)) =~= "["@ + value_text(r.value)
        + ","@ + "{"@ + member_text((k1, v1)) + ","@ + member_text((k2, v2)) + "}"@ + "]"@);
}

/// The object of the extras never holds a key twice.
pub proof fn lemma_folded_keys_unique(extras: Seq<Entry>)
    ensures
        keys_unique(folded(extras)),
    decreases extras.len(),
{
    if extras.len() > 0 {
        lemma_folded_keys_unique(extras.drop_last());
        lemma_insert_keeps_keys_unique(
            folded(extras.drop_last()),
            extras.last().0,
            extras.last().1,
        );
    }
}

/// In the object of the extras, every key that was added holds the value added
/// last under it.
pub proof fn lemma_folded_last_value_wins(extras: Seq<Entry>, j: int)
    requires
        0 <= j < extras.len(),
        forall|l: int| j < l < extras.len() ==> (#[trigger] extras[l]).0 != extras[j].0,
    ensures
        exists|i: int| 0 <= i < folded(extras).len() && folded(extras)[i] == extras[j],
    decreases extras.len(),
{
    let before = extras.drop_last();
    let last = extras.last();
    let f = folded(before);
    lemma_folded_keys_unique(before);
    if j == extras.len() - 1 {
        if exists|i: int| 0 <= i < f.len() && (#[trigger] f[i]).0 == last.0 {
            let i = choose|i: int| 0 <= i < f.len() && (#[trigger] f[i]).0 == last.0;
            assert(folded(extras)[i] == extras[j]);
        } else {
            assert(folded(extras)[f.len() as int] == extras[j]);
        }
    } else {
        assert forall|l: int| j < l < before.len() implies (#[trigger] before[l]).0 != before[j].0 by {
            assert(before[l] == extras[l]);
        }
        lemma_folded_last_value_wins(before, j);
        let i = choose|i: int| 0 <= i < f.len() && f[i] == before[j];
        assert(last.0 != extras[j].0);
        assert(folded(extras)[i] == extras[j]);
    }
}

/// An extra added again under a key already used replaces the value, at the
/// place of the key's first addition.
pub proof fn lemma_repeated_key_last_value_wins(
    r: RpcRequestView,
    k: Seq<char>,
    v1: Seq<char>,
    v2: Seq<char>,
)
    requires
        r.extras.len() == 0,
    ensures
        params_text(r.with_extra(k, v1).with_extra(k, v2)) == "["@ + value_text(r.value) + ","@
            + "{"@ + member_text((k, v2)) + "}"@ + "]"@,
{
    let extras = r.with_extra(k, v1).with_extra(k, v2).extras;
    let zero = extras.drop_last().drop_last();
    assert(folded(zero) =~= Seq::<Entry>::empty());
    let one = folded(extras.drop_last());
    assert(one[0].0 == k);
    assert(folded(extras) =~= seq![(k, v2)]);
    let items = params_items(r.with_extra(k, v1).with_extra(k, v2));
    assert(items.drop_last() =~= seq![value_text(r.value)]);
    assert(joined(items.drop_last()) == value_text(r.value));
    assert(joined(items) == value_text(r.value) + ","@ + items[1]);
    assert(params_text(r.with_extra(k, v1).with_extra(k, v2)) =~= "["@ + value_text(r.value)
        + ","@ + "{"@ + member_text((k, v2)) + "}"@ + "]"@);
}

/// Sealing depends on the fields of the request alone: two requests that hold the
/// same values give the same text, character for character.
pub proof fn lemma_seal_deterministic(a: RpcRequestView, b: RpcRequestView)
    requires
        a == b,
    ensures
        envelope_text(a) == envelope_text(b),
{
}

/// The decoded result of one call: the status line, the headers as received, and
/// the outcome of the body.
#[derive(Debug)]
pub struct HttpResponse<T> {
    pub status_code: u16,
    pub headers: HashMap<String, String>,
    pub reason_phrase: String,
    pub body: RequestOutcome<T>,
}

/// A success envelope: `{jsonrpc, id, result}`.
#[derive(Debug, PartialEq, Eq)]
pub struct RpcResponse<T> {
    pub jsonrpc: String,
    pub id: u8,
    pub result: T,
}

/// A result that comes with the context of the slot it was read at.
#[derive(Debug, PartialEq, Eq)]
pub struct RpcResult<U> {
    pub context: Context,
    pub value: Option<U>,
}

/// The slot and API version that a result was read at.
#[derive(Debug, PartialEq, Eq)]
pub struct Context {
    pub api_version: String,
    pub slot: u64,
}

/// A protocol error envelope: `{jsonrpc, id, error}`.
#[derive(Debug, PartialEq, Eq, PartialOrd, Ord)]
pub struct RpcJsonError {
    pub jsonrpc: String,
    pub id: u8,
    pub error: JsonError,
}

/// The error of a protocol error envelope: `{code, message, data?}`.
#[derive(Debug, PartialEq, Eq, PartialOrd, Ord)]
pub struct JsonError {
    pub code: i16,
    pub message: String,
    pub data: Option<String>,
}

/// The two outcomes of a call whose body could be read: exactly one of them.
#[derive(Debug, PartialEq, Eq)]
pub enum RequestOutcome<T> {
    Success(RpcResponse<T>),
    InvalidJson(RpcJsonError),
}

/// An error envelope whose error fields stand at the top level.
#[derive(Debug, PartialEq, Eq, PartialOrd, Ord)]
pub struct MalformedRequest {
    pub jsonrpc: String,
    pub id: u8,
    pub code: i16,
    pub message: String,
    pub data: Option<String>,
}

} // verus!
