//! The request and response envelope shapes, and the reconciliation of a
//! response envelope against the identifier of the request that produced it.

use vstd::prelude::*;
use vstd::string::*;
use crate::json::{
    arr_model, clone_arr, json_parse_of, json_text, lemma_obj_model, lookup, lookup_from,
    obj_get, obj_model, opt_model, parse_json_text, render_json, JsonModel, JsonValue,
};

verus! {

/// One error of the client's taxonomy, as every call surfaces it.
#[derive(Debug)]
pub enum ClientError {
    /// A required bootstrap variable is missing; names that variable.
    Environment { variable: String },
    /// The network call itself failed; carries the transport's own words.
    Transport { detail: String },
    /// The response body is not valid JSON, does not have the envelope
    /// shape, or populates neither `result` nor `error`.
    Malformed,
    /// The response envelope's identifier does not match the request's.
    Mismatch,
    /// The server reported an application-level failure, carried verbatim.
    Rpc { code: i64, message: String },
    /// The `result` payload does not match the expected response schema.
    Decode,
}

/// The model of one client error.
pub enum ErrorModel {
    Environment(Seq<char>),
    Transport(Seq<char>),
    Malformed,
    Mismatch,
    Rpc(i64, Seq<char>),
    Decode,
}

impl View for ClientError {
    type V = ErrorModel;

    open spec fn view(&self) -> ErrorModel {
        match self {
            ClientError::Environment { variable } => ErrorModel::Environment(variable@),
            ClientError::Transport { detail } => ErrorModel::Transport(detail@),
            ClientError::Malformed => ErrorModel::Malformed,
            ClientError::Mismatch => ErrorModel::Mismatch,
            ClientError::Rpc { code, message } => ErrorModel::Rpc(*code, message@),
            ClientError::Decode => ErrorModel::Decode,
        }
    }
}

/// The model of a reconciliation outcome: the raw `result` payload, or an
/// error.
pub open spec fn outcome_model(r: Result<JsonValue, ClientError>) -> Result<JsonModel, ErrorModel> {
    match r {
        Ok(v) => Ok(v@),
        Err(e) => Err(e@),
    }
}

/// A response envelope as the wire carries it: an identifier (possibly
/// `null`), an optional `result` payload, and an optional application error.
pub struct ResponseEnvelope {
    /// The echoed request identifier; `Null` when the server sent `null`.
    pub id: JsonValue,
    /// The `result` field, when populated with something other than `null`.
    pub result: Option<JsonValue>,
    /// The `error` field, when populated with something other than `null`.
    pub error: Option<RpcErrorInfo>,
}

/// The application-level error object a server may populate.
pub struct RpcErrorInfo {
    /// The server's error code.
    pub code: i64,
    /// The server's error message.
    pub message: String,
}

/// The model of a response envelope.
pub struct EnvelopeModel {
    pub id: JsonModel,
    pub result: Option<JsonModel>,
    pub error: Option<(i64, Seq<char>)>,
}

impl View for ResponseEnvelope {
    type V = EnvelopeModel;

    open spec fn view(&self) -> EnvelopeModel {
        EnvelopeModel {
            id: self.id@,
            result: opt_model(self.result),
            error: match self.error {
                Some(e) => Some((e.code, e.message@)),
                None => None,
            },
        }
    }
}

/// An optional field value with `null` treated as absent, per the envelope
/// discipline.
pub open spec fn norm_absent(r: Option<JsonModel>) -> Option<JsonModel> {
    match r {
        Some(JsonModel::Null) => None,
        other => other,
    }
}

/// A 64-bit signed integer read from a JSON number, when it fits.
pub open spec fn int_of(v: JsonModel) -> Option<i64> {
    match v {
        JsonModel::UInt(u) => if u <= i64::MAX { Some(u as i64) } else { None },
        JsonModel::NegInt(i) => Some(i),
        _ => None,
    }
}

/// Whether a value may stand in the envelope's `id` field: `null` or an
/// integer.
pub open spec fn id_type_ok(v: JsonModel) -> bool {
    v is Null || v is UInt || v is NegInt
}

/// What the `error` field yields: `Some(None)` when absent or `null`,
/// `Some(Some(code, message))` for a well-formed error object, and `None`
/// when the field is populated with anything else.
pub open spec fn error_field_of(e: Option<JsonModel>) -> Option<Option<(i64, Seq<char>)>> {
    match e {
        None => Some(None),
        Some(JsonModel::Null) => Some(None),
        Some(JsonModel::Obj(f)) => match (lookup(f, "code"@), lookup(f, "message"@)) {
            (Some(c), Some(JsonModel::Str(msg))) => match int_of(c) {
                Some(ci) => Some(Some((ci, msg))),
                None => None,
            },
            _ => None,
        },
        Some(_) => None,
    }
}

/// What a parsed JSON document yields as a response envelope: `None` when it
/// is not an object, lacks an `id` of an accepted type, or populates `error`
/// with something other than an error object.
pub open spec fn envelope_of(v: JsonModel) -> Option<EnvelopeModel> {
    match v {
        JsonModel::Obj(f) => match lookup(f, "id"@) {
            None => None,
            Some(id) => if !id_type_ok(id) {
                None
            } else {
                match error_field_of(lookup(f, "error"@)) {
                    None => None,
                    Some(err) => Some(EnvelopeModel {
                        id: id,
                        result: norm_absent(lookup(f, "result"@)),
                        error: err,
                    }),
                }
            },
        },
        _ => None,
    }
}

/// The models of an optional envelope.
pub open spec fn opt_envelope_model(r: Option<ResponseEnvelope>) -> Option<EnvelopeModel> {
    match r {
        Some(env) => Some(env@),
        None => None,
    }
}

/// The reconciliation of an envelope against the expected identifier. The
/// identifier is inspected first: a present, mismatching identifier
/// invalidates trust in the rest of the payload. A populated `error` then
/// takes priority over `result`; an envelope with neither populated breaks
/// the protocol and is malformed.
pub open spec fn classify(env: EnvelopeModel, expected: u64) -> Result<JsonModel, ErrorModel> {
    if !(env.id is Null) && env.id != JsonModel::UInt(expected) {
        Err(ErrorModel::Mismatch)
    } else {
        match env.error {
            Some((code, message)) => Err(ErrorModel::Rpc(code, message)),
            None => match env.result {
                Some(r) => Ok(r),
                None => Err(ErrorModel::Malformed),
            },
        }
    }
}

/// What reconciling a raw response text against the expected identifier
/// yields: text that is not valid JSON or not an envelope is malformed;
/// otherwise the envelope is classified.
pub open spec fn reconcile_model(p: Option<JsonModel>, expected: u64) -> Result<
    JsonModel,
    ErrorModel,
> {
    match p {
        None => Err(ErrorModel::Malformed),
        Some(v) => match envelope_of(v) {
            None => Err(ErrorModel::Malformed),
            Some(env) => classify(env, expected),
        },
    }
}

impl ResponseEnvelope {
    /// Reads a response envelope out of a parsed JSON document.
    pub fn from_json(v: &JsonValue) -> (r: Option<ResponseEnvelope>)
        ensures
            opt_envelope_model(r) == envelope_of(v@),
    {
        match v {
            JsonValue::Obj(fields) => {
                proof {
                    lemma_obj_model(*fields, fields.len() as int);
                }
                let id = match obj_get(fields, &"id".to_owned()) {
                    Some(idv) => match idv {
                        JsonValue::Null => JsonValue::Null,
                        JsonValue::UInt(u) => JsonValue::UInt(*u),
                        JsonValue::NegInt(i) => JsonValue::NegInt(*i),
                        _ => { return None; },
                    },
                    None => { return None; },
                };
                let error = match Self::error_field(obj_get(fields, &"error".to_owned())) {
                    Some(err) => err,
                    None => { return None; },
                };
                let result = match obj_get(fields, &"result".to_owned()) {
                    Some(JsonValue::Null) => None,
                    Some(r) => Some(r.clone_value()),
                    None => None,
                };
                Some(ResponseEnvelope { id, result, error })
            },
            _ => None,
        }
    }

    /// Reads the `error` field's content, distinguishing an absent or `null`
    /// field, a well-formed error object, and a malformed one.
    fn error_field(e: Option<&JsonValue>) -> (r: Option<Option<RpcErrorInfo>>)
        ensures
            (match r {
                Some(Some(info)) => error_field_of(opt_ref_model(e)) == Some(
                    Some((info.code, info.message@)),
                ),
                Some(None) => error_field_of(opt_ref_model(e)) == Some(
                    None::<(i64, Seq<char>)>,
                ),
                None => error_field_of(opt_ref_model(e)) is None,
            }),
    {
        match e {
            None => Some(None),
            Some(JsonValue::Null) => Some(None),
            Some(JsonValue::Obj(f)) => {
                proof {
                    lemma_obj_model(*f, f.len() as int);
                }
                let code = match obj_get(f, &"code".to_owned()) {
                    Some(JsonValue::UInt(u)) => {
                        if *u <= i64::MAX as u64 {
                            *u as i64
                        } else {
                            return None;
                        }
                    },
                    Some(JsonValue::NegInt(i)) => *i,
                    _ => { return None; },
                };
                let message = match obj_get(f, &"message".to_owned()) {
                    Some(JsonValue::Str(m)) => m.clone(),
                    _ => { return None; },
                };
                Some(Some(RpcErrorInfo { code, message }))
            },
            Some(_) => None,
        }
    }

    /// Reconciles this envelope against the identifier of the request it is
    /// expected to answer, yielding the raw `result` payload or an error.
    pub fn reconcile(self, expected_id: u64) -> (r: Result<JsonValue, ClientError>)
        ensures
            outcome_model(r) == classify(self@, expected_id),
    {
        let id_matches = match &self.id {
            JsonValue::Null => true,
            JsonValue::UInt(u) => *u == expected_id,
            _ => false,
        };
        if !id_matches {
            Err(ClientError::Mismatch)
        } else {
            match self.error {
                Some(info) => Err(ClientError::Rpc { code: info.code, message: info.message }),
                None => match self.result {
                    Some(r) => Ok(r),
                    None => Err(ClientError::Malformed),
                },
            }
        }
    }
}

/// The model of an optional borrowed value.
pub open spec fn opt_ref_model(e: Option<&JsonValue>) -> Option<JsonModel> {
    match e {
        Some(v) => Some(v@),
        None => None,
    }
}

/// Parses a raw response text and reconciles it against the expected
/// request identifier: the generic half of every call, shared by all typed
/// methods.
pub fn reconcile_text(raw: &str, expected_id: u64) -> (r: Result<JsonValue, ClientError>)
    ensures
        outcome_model(r) == reconcile_model(json_parse_of(raw@), expected_id),
{
    match parse_json_text(raw) {
        None => Err(ClientError::Malformed),
        Some(v) => match ResponseEnvelope::from_json(&v) {
            None => Err(ClientError::Malformed),
            Some(env) => env.reconcile(expected_id),
        },
    }
}

/// A request envelope: the identifier, wire method name and positional
/// parameters of one call.
pub struct RequestEnvelope {
    /// The request identifier.
    pub id: u64,
    /// The wire method name.
    pub method: String,
    /// The positional parameters, in order.
    pub params: Vec<JsonValue>,
}

/// The JSON document a request envelope is serialized as.
pub open spec fn request_model(id: u64, method: Seq<char>, params: Seq<JsonModel>) -> JsonModel {
    JsonModel::Obj(
        seq![
            ("jsonrpc"@, JsonModel::Str("1.0"@)),
            ("id"@, JsonModel::UInt(id)),
            ("method"@, JsonModel::Str(method)),
            ("params"@, JsonModel::Arr(params)),
        ],
    )
}

/// What a parsed JSON document yields as a request envelope.
pub open spec fn request_envelope_of(v: JsonModel) -> Option<(u64, Seq<char>, Seq<JsonModel>)> {
    match v {
        JsonModel::Obj(f) => match (lookup(f, "id"@), lookup(f, "method"@), lookup(f, "params"@)) {
            (Some(JsonModel::UInt(id)), Some(JsonModel::Str(m)), Some(JsonModel::Arr(ps))) => Some(
                (id, m, ps),
            ),
            _ => None,
        },
        _ => None,
    }
}

/// The model of an optional request envelope.
pub open spec fn opt_request_model(r: Option<RequestEnvelope>) -> Option<
    (u64, Seq<char>, Seq<JsonModel>),
> {
    match r {
        Some(req) => Some((req.id, req.method@, arr_model(req.params, req.params.len() as int))),
        None => None,
    }
}

impl RequestEnvelope {
    /// Builds and serializes the request envelope for one call. No validation
    /// of `method` or `params` happens here: they are caller-supplied and
    /// opaque at this layer.
    pub fn wrap(id: u64, method: &str, params: Vec<JsonValue>) -> (r: String)
        ensures
            r@ == json_text(request_model(id, method@, arr_model(params, params.len() as int))),
    {
        let ghost pm = arr_model(params, params.len() as int);
        let mut members: Vec<(String, JsonValue)> = Vec::new();
        members.push(("jsonrpc".to_owned(), JsonValue::Str("1.0".to_owned())));
        members.push(("id".to_owned(), JsonValue::UInt(id)));
        members.push(("method".to_owned(), JsonValue::Str(method.to_owned())));
        members.push(("params".to_owned(), JsonValue::Arr(params)));
        let ghost gm = members;
        let doc = JsonValue::Obj(members);
        proof {
            lemma_obj_model(gm, 4);
            assert(obj_model(gm, 4) =~= seq![
                ("jsonrpc"@, JsonModel::Str("1.0"@)),
                ("id"@, JsonModel::UInt(id)),
                ("method"@, JsonModel::Str(method@)),
                ("params"@, JsonModel::Arr(pm)),
            ]);
            assert(doc@ =~~= request_model(id, method@, pm));
        }
        render_json(&doc)
    }

    /// Reads a request envelope back out of its serialized text.
    pub fn from_text(raw: &str) -> (r: Option<RequestEnvelope>)
        ensures
            opt_request_model(r) == (match json_parse_of(raw@) {
                Some(v) => request_envelope_of(v),
                None => None,
            }),
    {
        let v = match parse_json_text(raw) {
            Some(v) => v,
            None => { return None; },
        };
        match &v {
            JsonValue::Obj(fields) => {
                proof {
                    lemma_obj_model(*fields, fields.len() as int);
                }
                let id = match obj_get(fields, &"id".to_owned()) {
                    Some(JsonValue::UInt(u)) => *u,
                    _ => { return None; },
                };
                let method = match obj_get(fields, &"method".to_owned()) {
                    Some(JsonValue::Str(m)) => m.clone(),
                    _ => { return None; },
                };
                let params = match obj_get(fields, &"params".to_owned()) {
                    Some(JsonValue::Arr(a)) => clone_arr(a),
                    _ => { return None; },
                };
                Some(RequestEnvelope { id, method, params })
            },
            _ => None,
        }
    }
}

/// Law: serializing a request envelope and reading it back recovers the
/// identifier, the method name and the parameter sequence unchanged.
pub proof fn lemma_request_roundtrip(id: u64, method: Seq<char>, params: Seq<JsonModel>)
    ensures
        request_envelope_of(request_model(id, method, params)) == Some((id, method, params)),
{
    let f = seq![
        ("jsonrpc"@, JsonModel::Str("1.0"@)),
        ("id"@, JsonModel::UInt(id)),
        ("method"@, JsonModel::Str(method)),
        ("params"@, JsonModel::Arr(params)),
    ];
    reveal_strlit("jsonrpc");
    reveal_strlit("id");
    reveal_strlit("method");
    reveal_strlit("params");
    reveal_with_fuel(lookup_from, 5);
    assert(f.len() == 4);
    assert(f[0].0 == "jsonrpc"@);
    assert("jsonrpc"@.len() == 7);
    assert("id"@.len() == 2);
    assert("jsonrpc"@ != "id"@);
    assert(lookup(f, "id"@) == Some(JsonModel::UInt(id)));
    assert(lookup(f, "method"@) == Some(JsonModel::Str(method)));
    assert("method"@[0] == 'm' && "params"@[0] == 'p');
    assert("method"@ != "params"@);
    assert(lookup(f, "params"@) == Some(JsonModel::Arr(params)));
}

/// Law: a response envelope whose identifier is present and mismatching is
/// reconciled as `Mismatch`, even when its `error` field is populated — the
/// identifier check precedes every other inspection.
pub proof fn lemma_mismatch_precedes_rpc_error(env: EnvelopeModel, expected: u64)
    requires
        !(env.id is Null),
        env.id != JsonModel::UInt(expected),
    ensures
        classify(env, expected) == Err::<JsonModel, ErrorModel>(ErrorModel::Mismatch),
{
}

/// Law: a response envelope with a matching identifier that populates both
/// `result` and `error` never yields the `result` value: the server's error
/// is surfaced.
pub proof fn lemma_both_populated_is_error(env: EnvelopeModel, expected: u64)
    requires
        env.id == JsonModel::UInt(expected) || env.id is Null,
        env.result is Some,
        env.error is Some,
    ensures
        classify(env, expected) == Err::<JsonModel, ErrorModel>(
            ErrorModel::Rpc(env.error.unwrap().0, env.error.unwrap().1),
        ),
{
}

/// Law: a response envelope with a matching identifier that populates
/// neither `result` nor `error` is malformed.
pub proof fn lemma_neither_populated_is_malformed(env: EnvelopeModel, expected: u64)
    requires
        env.id == JsonModel::UInt(expected) || env.id is Null,
        env.result is None,
        env.error is None,
    ensures
        classify(env, expected) == Err::<JsonModel, ErrorModel>(ErrorModel::Malformed),
{
}

} // verus!
