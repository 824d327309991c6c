//! Request and Response Envelopes: how a request is read out of a JSON
//! value, and how responses, errors and notifications are laid out as JSON
//! values. Parsing fails closed; the version tag is checked only after the
//! structure has been read, so a version failure can still echo the
//! request's id.

use vstd::prelude::*;
use vstd::string::StringExecFns;
use crate::json::{JsonField, JsonValue};
use crate::errors::{RpcError, RpcResponseError};
use crate::JSON_RPC_VERSION;

verus! {

/// A parsed Request Envelope: version tag, optional correlation id, method
/// name, and the method's parameter value when one was supplied. Immutable
/// once parsed.
#[derive(Debug)]
pub struct RpcRequest {
    pub jsonrpc: String,
    pub id: Option<u64>,
    pub method: String,
    pub params: Option<JsonValue>,
}

/// The envelope members of a request object, each holding the first
/// occurrence of its key while the object's fields are scanned.
pub struct EnvelopeSlots {
    pub jsonrpc: Option<JsonValue>,
    pub id: Option<JsonValue>,
    pub method: Option<JsonValue>,
    pub params: Option<JsonValue>,
}

pub open spec fn slot_or(a: Option<JsonValue>, b: Option<JsonValue>) -> Option<JsonValue> {
    if a is Some {
        a
    } else {
        b
    }
}

pub open spec fn empty_slots() -> EnvelopeSlots {
    EnvelopeSlots { jsonrpc: None, id: None, method: None, params: None }
}

/// Combines two scans; occurrences in `a` came earlier and win.
pub open spec fn merge_slots(a: EnvelopeSlots, b: EnvelopeSlots) -> EnvelopeSlots {
    EnvelopeSlots {
        jsonrpc: slot_or(a.jsonrpc, b.jsonrpc),
        id: slot_or(a.id, b.id),
        method: slot_or(a.method, b.method),
        params: slot_or(a.params, b.params),
    }
}

/// The contribution of a single object member: it fills the slot its key
/// names and nothing else; members under unknown keys are ignored.
pub open spec fn field_slots(f: JsonField) -> EnvelopeSlots {
    EnvelopeSlots {
        jsonrpc: if f.key@ == "jsonrpc"@ {
            Some(f.value)
        } else {
            None
        },
        id: if f.key@ == "id"@ {
            Some(f.value)
        } else {
            None
        },
        method: if f.key@ == "method"@ {
            Some(f.value)
        } else {
            None
        },
        params: if f.key@ == "params"@ {
            Some(f.value)
        } else {
            None
        },
    }
}

/// The whole scan of an object: for each envelope key, the value under its
/// first occurrence.
pub open spec fn scan_fields(fs: Seq<JsonField>) -> EnvelopeSlots
    decreases fs.len(),
{
    if fs.len() == 0 {
        empty_slots()
    } else {
        merge_slots(field_slots(fs[0]), scan_fields(fs.skip(1)))
    }
}

/// The member keys of a response envelope are different strings.
proof fn lemma_response_keys_distinct()
    ensures
        "result"@ != "error"@,
{
    reveal_strlit("result");
    reveal_strlit("error");
    assert("result"@.len() == 6);
    assert("error"@.len() == 5);
}

/// The four envelope keys are pairwise different strings.
proof fn lemma_keys_distinct()
    ensures
        "jsonrpc"@ != "id"@,
        "jsonrpc"@ != "method"@,
        "jsonrpc"@ != "params"@,
        "id"@ != "method"@,
        "id"@ != "params"@,
        "method"@ != "params"@,
{
    reveal_strlit("jsonrpc");
    reveal_strlit("id");
    reveal_strlit("method");
    reveal_strlit("params");
    assert("jsonrpc"@.len() == 7);
    assert("id"@.len() == 2);
    assert("method"@.len() == 6);
    assert("params"@.len() == 6);
    assert("method"@[0] == 'm');
    assert("params"@[0] == 'p');
}

proof fn lemma_merge_assoc(a: EnvelopeSlots, b: EnvelopeSlots, c: EnvelopeSlots)
    ensures
        merge_slots(a, merge_slots(b, c)) == merge_slots(merge_slots(a, b), c),
{
}

proof fn lemma_scan_push(fs: Seq<JsonField>, f: JsonField)
    ensures
        scan_fields(fs.push(f)) == merge_slots(scan_fields(fs), field_slots(f)),
    decreases fs.len(),
{
    if fs.len() == 0 {
        assert(fs.push(f)[0] == f);
        assert(fs.push(f).skip(1) =~= Seq::<JsonField>::empty());
        assert(scan_fields(fs.push(f).skip(1)) == empty_slots());
        assert(scan_fields(fs.push(f)) == merge_slots(field_slots(f), empty_slots()));
        assert(scan_fields(fs) == empty_slots());
        assert(merge_slots(field_slots(f), empty_slots()) == field_slots(f));
        assert(merge_slots(empty_slots(), field_slots(f)) == field_slots(f));
    } else {
        assert(fs.push(f)[0] == fs[0]);
        assert(fs.push(f).skip(1) =~= fs.skip(1).push(f));
        lemma_scan_push(fs.skip(1), f);
        assert(scan_fields(fs.push(f)) == merge_slots(field_slots(fs[0]), merge_slots(scan_fields(fs.skip(1)), field_slots(f))));
        lemma_merge_assoc(field_slots(fs[0]), scan_fields(fs.skip(1)), field_slots(f));
        assert(scan_fields(fs) == merge_slots(field_slots(fs[0]), scan_fields(fs.skip(1))));
    }
}

/// What the correlation-id member means: absent or null is "no id", an
/// unsigned number is the id, anything else is malformed.
pub open spec fn spec_id_of(slot: Option<JsonValue>) -> Option<Option<u64>> {
    match slot {
        None => Some(None),
        Some(JsonValue::Null) => Some(None),
        Some(JsonValue::UInt(n)) => Some(Some(n)),
        _ => None,
    }
}

/// What parsing a request value yields: a malformed structure fails closed
/// with no id; a structurally sound request whose version tag is not the
/// fixed version string fails with the request's own id; anything else is
/// the parsed envelope, with absent parameters left absent.
pub open spec fn spec_parse(v: JsonValue) -> Result<RpcRequest, RpcResponseError> {
    match v {
        JsonValue::Object(fields) => {
            let slots = scan_fields(fields@);
            match (slots.jsonrpc, slots.method, spec_id_of(slots.id)) {
                (Some(JsonValue::Str(ver)), Some(JsonValue::Str(method)), Some(id)) => {
                    if ver@ != JSON_RPC_VERSION@ {
                        Err(RpcResponseError { id, error: RpcError::InvalidVersion })
                    } else {
                        Ok(RpcRequest { jsonrpc: ver, id, method, params: slots.params })
                    }
                },
                _ => Err(RpcResponseError { id: None, error: RpcError::ParseBodyError }),
            }
        },
        _ => Err(RpcResponseError { id: None, error: RpcError::ParseBodyError }),
    }
}

/// Reads one Request Envelope out of a JSON value.
pub fn parse_request(body: JsonValue) -> (r: Result<RpcRequest, RpcResponseError>)
    ensures
        r == spec_parse(body),
{
    let mut fields = match body {
        JsonValue::Object(fields) => fields,
        _ => {
            return Err(RpcResponseError::new(None, RpcError::ParseBodyError));
        },
    };
    let ghost initial_fields = fields@;
    let key_jsonrpc = String::from_str("jsonrpc");
    let key_id = String::from_str("id");
    let key_method = String::from_str("method");
    let key_params = String::from_str("params");
    let mut slots = EnvelopeSlots { jsonrpc: None, id: None, method: None, params: None };
    while fields.len() > 0
        invariant
            merge_slots(scan_fields(fields@), slots) == scan_fields(initial_fields),
            key_jsonrpc@ == "jsonrpc"@,
            key_id@ == "id"@,
            key_method@ == "method"@,
            key_params@ == "params"@,
        decreases fields@.len(),
    {
        let ghost fs_before = fields@;
        let f = fields.pop().unwrap();
        let ghost fsnap = f;
        let ghost slots_before = slots;
        if f.key == key_jsonrpc {
            slots.jsonrpc = Some(f.value);
        } else if f.key == key_id {
            slots.id = Some(f.value);
        } else if f.key == key_method {
            slots.method = Some(f.value);
        } else if f.key == key_params {
            slots.params = Some(f.value);
        }
        proof {
            lemma_keys_distinct();
            assert(fields@ =~= fs_before.drop_last());
            assert(fs_before =~= fields@.push(fsnap));
            lemma_scan_push(fields@, fsnap);
            lemma_merge_assoc(scan_fields(fields@), field_slots(fsnap), slots_before);
            assert(slots == merge_slots(field_slots(fsnap), slots_before));
            assert(merge_slots(scan_fields(fields@), slots) == scan_fields(initial_fields));
        }
    }
    proof {
        assert(scan_fields(fields@) == empty_slots());
        assert(scan_fields(initial_fields) == slots);
    }
    let ver = match slots.jsonrpc {
        Some(JsonValue::Str(s)) => s,
        _ => {
            return Err(RpcResponseError::new(None, RpcError::ParseBodyError));
        },
    };
    let method = match slots.method {
        Some(JsonValue::Str(s)) => s,
        _ => {
            return Err(RpcResponseError::new(None, RpcError::ParseBodyError));
        },
    };
    let id = match slots.id {
        None => None,
        Some(JsonValue::Null) => None,
        Some(JsonValue::UInt(n)) => Some(n),
        _ => {
            return Err(RpcResponseError::new(None, RpcError::ParseBodyError));
        },
    };
    let version = String::from_str(JSON_RPC_VERSION);
    if !(ver == version) {
        return Err(RpcResponseError::new(id, RpcError::InvalidVersion));
    }
    Ok(RpcRequest { jsonrpc: ver, id, method, params: slots.params })
}

/// A Response Envelope: the echoed correlation id and exactly one of a
/// result value or a structured error.
#[derive(Debug)]
pub struct RpcResponse {
    pub id: Option<u64>,
    pub body: ResponseBody,
}

#[derive(Debug)]
pub enum ResponseBody {
    Result(JsonValue),
    Error { code: i16, message: String },
}

/// The correlation id as it stands on the wire: a number, or null when
/// there is none.
pub open spec fn spec_id_json(id: Option<u64>) -> JsonValue {
    match id {
        Some(n) => JsonValue::UInt(n),
        None => JsonValue::Null,
    }
}

/// The wire shape of a success response: version tag, echoed id, and the
/// result value verbatim.
pub open spec fn is_success_envelope(v: JsonValue, id: Option<u64>, result: JsonValue) -> bool {
    &&& v is Object
    &&& v.obj().len() == 3
    &&& v.obj()[0].key@ == "jsonrpc"@
    &&& v.obj()[0].value matches JsonValue::Str(s) && s@ == JSON_RPC_VERSION@
    &&& v.obj()[1].key@ == "id"@
    &&& v.obj()[1].value == spec_id_json(id)
    &&& v.obj()[2].key@ == "result"@
    &&& v.obj()[2].value == result
}

/// The wire shape of an error response: version tag, best-effort echoed id,
/// and an error object carrying the numeric code and the message.
pub open spec fn is_error_envelope(v: JsonValue, id: Option<u64>, code: i16, message: Seq<char>) -> bool {
    &&& v is Object
    &&& v.obj().len() == 3
    &&& v.obj()[0].key@ == "jsonrpc"@
    &&& v.obj()[0].value matches JsonValue::Str(s) && s@ == JSON_RPC_VERSION@
    &&& v.obj()[1].key@ == "id"@
    &&& v.obj()[1].value == spec_id_json(id)
    &&& v.obj()[2].key@ == "error"@
    &&& v.obj()[2].value is Object
    &&& v.obj()[2].value.obj().len() == 2
    &&& v.obj()[2].value.obj()[0].key@ == "code"@
    &&& v.obj()[2].value.obj()[0].value == JsonValue::Int(code as i64)
    &&& v.obj()[2].value.obj()[1].key@ == "message"@
    &&& v.obj()[2].value.obj()[1].value matches JsonValue::Str(s) && s@ == message
}

/// The wire shape of an unsolicited notification: version tag, the
/// correlation id captured at subscription time, and a result object
/// pairing the event kind with the payload.
pub open spec fn is_notification_envelope(v: JsonValue, id: Option<u64>, event: JsonValue, value: JsonValue) -> bool {
    &&& v is Object
    &&& v.obj().len() == 3
    &&& v.obj()[0].key@ == "jsonrpc"@
    &&& v.obj()[0].value matches JsonValue::Str(s) && s@ == JSON_RPC_VERSION@
    &&& v.obj()[1].key@ == "id"@
    &&& v.obj()[1].value == spec_id_json(id)
    &&& v.obj()[2].key@ == "result"@
    &&& v.obj()[2].value is Object
    &&& v.obj()[2].value.obj().len() == 2
    &&& v.obj()[2].value.obj()[0].key@ == "event"@
    &&& v.obj()[2].value.obj()[0].value == event
    &&& v.obj()[2].value.obj()[1].key@ == "value"@
    &&& v.obj()[2].value.obj()[1].value == value
}

/// Exactly one of result or error, together with the envelope around it.
pub open spec fn is_response_envelope(v: JsonValue, r: RpcResponse) -> bool {
    match r.body {
        ResponseBody::Result(p) => is_success_envelope(v, r.id, p),
        ResponseBody::Error { code, message } => is_error_envelope(v, r.id, code, message@),
    }
}

fn id_json(id: Option<u64>) -> (v: JsonValue)
    ensures
        v == spec_id_json(id),
{
    match id {
        Some(n) => JsonValue::UInt(n),
        None => JsonValue::Null,
    }
}

/// Builds a success Response Envelope around a method's result value.
pub fn make_success_response(id: Option<u64>, result: JsonValue) -> (v: JsonValue)
    ensures
        is_success_envelope(v, id, result),
{
    let mut fields: Vec<JsonField> = Vec::new();
    fields.push(JsonField { key: String::from_str("jsonrpc"), value: JsonValue::Str(String::from_str(JSON_RPC_VERSION)) });
    fields.push(JsonField { key: String::from_str("id"), value: id_json(id) });
    fields.push(JsonField { key: String::from_str("result"), value: result });
    JsonValue::Object(fields)
}

/// Builds a Notification Envelope: the same envelope shape as a response,
/// but its id is the subscription's captured id and its result pairs the
/// event kind with the payload — it answers no request.
pub fn build_notification(event: JsonValue, value: JsonValue, id: Option<u64>) -> (v: JsonValue)
    ensures
        is_notification_envelope(v, id, event, value),
{
    let mut inner: Vec<JsonField> = Vec::new();
    inner.push(JsonField { key: String::from_str("event"), value: event });
    inner.push(JsonField { key: String::from_str("value"), value: value });
    let mut fields: Vec<JsonField> = Vec::new();
    fields.push(JsonField { key: String::from_str("jsonrpc"), value: JsonValue::Str(String::from_str(JSON_RPC_VERSION)) });
    fields.push(JsonField { key: String::from_str("id"), value: id_json(id) });
    fields.push(JsonField { key: String::from_str("result"), value: JsonValue::Object(inner) });
    JsonValue::Object(fields)
}

impl RpcResponseError {
    /// The full error Response Envelope for this failure, with the fixed
    /// code of its error kind and the error's message.
    pub fn to_json(&self) -> (v: JsonValue)
        ensures
            is_error_envelope(v, self.id, self.error.spec_code(), self.error.spec_message()),
    {
        let mut inner: Vec<JsonField> = Vec::new();
        inner.push(JsonField { key: String::from_str("code"), value: JsonValue::Int(self.error.get_code() as i64) });
        inner.push(JsonField { key: String::from_str("message"), value: JsonValue::Str(self.error.message()) });
        let mut fields: Vec<JsonField> = Vec::new();
        fields.push(JsonField { key: String::from_str("jsonrpc"), value: JsonValue::Str(String::from_str(JSON_RPC_VERSION)) });
        fields.push(JsonField { key: String::from_str("id"), value: self.get_id() });
        fields.push(JsonField { key: String::from_str("error"), value: JsonValue::Object(inner) });
        JsonValue::Object(fields)
    }
}

/// Encodes a Response Envelope as a JSON value.
pub fn encode_response(r: RpcResponse) -> (v: JsonValue)
    ensures
        is_response_envelope(v, r),
{
    match r.body {
        ResponseBody::Result(p) => make_success_response(r.id, p),
        ResponseBody::Error { code, message } => {
            let mut inner: Vec<JsonField> = Vec::new();
            inner.push(JsonField { key: String::from_str("code"), value: JsonValue::Int(code as i64) });
            inner.push(JsonField { key: String::from_str("message"), value: JsonValue::Str(message) });
            let mut fields: Vec<JsonField> = Vec::new();
            fields.push(JsonField { key: String::from_str("jsonrpc"), value: JsonValue::Str(String::from_str(JSON_RPC_VERSION)) });
            fields.push(JsonField { key: String::from_str("id"), value: id_json(r.id) });
            fields.push(JsonField { key: String::from_str("error"), value: JsonValue::Object(inner) });
            JsonValue::Object(fields)
        },
    }
}

/// Decodes a Response Envelope from a JSON value; anything that is not the
/// exact envelope shape yields nothing.
pub fn decode_response(v: JsonValue) -> (out: Option<RpcResponse>)
    ensures
        out matches Some(r) ==> is_response_envelope(v, r),
        forall|r: RpcResponse| #[trigger] is_response_envelope(v, r) ==> (out matches Some(r2)
            && r2.id == r.id
            && (match (r.body, r2.body) {
                (ResponseBody::Result(p), ResponseBody::Result(q)) => q == p,
                (ResponseBody::Error { code, message }, ResponseBody::Error { code: c2, message: m2 }) => c2 == code
                    && m2@ == message@,
                _ => false,
            })),
{
    proof {
        lemma_response_keys_distinct();
    }
    let mut fields = match v {
        JsonValue::Object(fields) => fields,
        _ => {
            return None;
        },
    };
    let ghost fields0 = fields@;
    proof {
        assert(v.obj() == fields0);
    }
    if fields.len() != 3 {
        return None;
    }
    let f2 = match fields.pop() {
        Some(f) => f,
        None => {
            return None;
        },
    };
    let f1 = match fields.pop() {
        Some(f) => f,
        None => {
            return None;
        },
    };
    let f0 = match fields.pop() {
        Some(f) => f,
        None => {
            return None;
        },
    };
    if !(f0.key == String::from_str("jsonrpc")) {
        return None;
    }
    match &f0.value {
        JsonValue::Str(s) => {
            if !(*s == String::from_str(JSON_RPC_VERSION)) {
                return None;
            }
        },
        _ => {
            return None;
        },
    }
    if !(f1.key == String::from_str("id")) {
        return None;
    }
    let id = match f1.value {
        JsonValue::Null => None,
        JsonValue::UInt(n) => Some(n),
        _ => {
            return None;
        },
    };
    if f2.key == String::from_str("result") {
        return Some(RpcResponse { id, body: ResponseBody::Result(f2.value) });
    }
    if !(f2.key == String::from_str("error")) {
        return None;
    }
    let mut inner = match f2.value {
        JsonValue::Object(inner) => inner,
        _ => {
            return None;
        },
    };
    if inner.len() != 2 {
        return None;
    }
    let g1 = match inner.pop() {
        Some(f) => f,
        None => {
            return None;
        },
    };
    let g0 = match inner.pop() {
        Some(f) => f,
        None => {
            return None;
        },
    };
    if !(g0.key == String::from_str("code")) {
        return None;
    }
    let code64 = match g0.value {
        JsonValue::Int(c) => c,
        _ => {
            return None;
        },
    };
    if code64 < -32768 || code64 > 32767 {
        return None;
    }
    let code = code64 as i16;
    if !(g1.key == String::from_str("message")) {
        return None;
    }
    let message = match g1.value {
        JsonValue::Str(s) => s,
        _ => {
            return None;
        },
    };
    Some(RpcResponse { id, body: ResponseBody::Error { code, message } })
}

/// A structurally sound request whose version tag is not the fixed version
/// string parses to the invalid-version error, echoing the request's own id.
pub proof fn lemma_version_mismatch_echoes_id(v: JsonValue)
    requires
        v is Object,
        scan_fields(v.obj()).jsonrpc matches Some(ver) && ver matches JsonValue::Str(tag) && tag@ != JSON_RPC_VERSION@,
        scan_fields(v.obj()).method matches Some(m) && m is Str,
        spec_id_of(scan_fields(v.obj()).id) is Some,
    ensures
        spec_id_of(scan_fields(v.obj()).id) matches Some(id) && spec_parse(v)
            == Err::<RpcRequest, RpcResponseError>(RpcResponseError { id, error: RpcError::InvalidVersion }),
        RpcError::InvalidVersion.spec_code() == -32600i16,
{
}

/// Encoding a Response Envelope and decoding it yields a value equal on the
/// id and on which of result and error is present — and, beyond that, equal
/// on the result value, the error code and the error message.
pub fn response_round_trip(r: RpcResponse) -> (out: Option<RpcResponse>)
    ensures
        out matches Some(r2) && r2.id == r.id && (match (r.body, r2.body) {
            (ResponseBody::Result(p), ResponseBody::Result(q)) => q == p,
            (ResponseBody::Error { code, message }, ResponseBody::Error { code: c2, message: m2 }) => c2 == code
                && m2@ == message@,
            _ => false,
        }),
{
    let v = encode_response(r);
    decode_response(v)
}

} // verus!
