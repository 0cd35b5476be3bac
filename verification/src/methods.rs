//! The typed method surface: one declarative entry per RPC method.
//!
//! Each method contributes three things and touches nothing else: its wire
//! name, its positional parameters, and a response schema type with a
//! verified decoder from a parsed JSON payload. A pair of thin functions on
//! [`Client`] per method funnels every call through the shared pipeline:
//! `..._begin` yields the identifier and serialized envelope to post, and
//! `..._finish` reconciles the raw response text and decodes the payload
//! into the method's response type.

use vstd::prelude::*;
use vstd::string::*;
use crate::client::Client;
use crate::envelope::{int_of, reconcile_model, reconcile_text, ClientError, ErrorModel};
use crate::json::{
    arr_model, json_parse_of, json_text, lemma_arr_model, lemma_obj_model, lookup, obj_model,
    opt_model, JsonModel, JsonValue,
};
use crate::envelope::request_model;

verus! {

/// An amount of currency exactly as the wire carries it: a JSON number,
/// held whole rather than rounded through a machine float.
pub struct ZecAmount(pub JsonValue);

impl View for ZecAmount {
    type V = JsonModel;

    open spec fn view(&self) -> JsonModel {
        self.0@
    }
}

/// A required field holding a non-negative 64-bit integer.
pub open spec fn u64_of(v: Option<JsonModel>) -> Option<u64> {
    match v {
        Some(JsonModel::UInt(u)) => Some(u),
        _ => None,
    }
}

/// A required field holding a string.
pub open spec fn str_of(v: Option<JsonModel>) -> Option<Seq<char>> {
    match v {
        Some(JsonModel::Str(s)) => Some(s),
        _ => None,
    }
}

/// A required field holding a boolean.
pub open spec fn bool_of(v: Option<JsonModel>) -> Option<bool> {
    match v {
        Some(JsonModel::Bool(b)) => Some(b),
        _ => None,
    }
}

/// A required field holding a JSON number of any shape.
pub open spec fn num_of(v: Option<JsonModel>) -> Option<JsonModel> {
    match v {
        Some(n) => if n is UInt || n is NegInt || n is NumText {
            Some(n)
        } else {
            None
        },
        None => None,
    }
}

/// Finds a required `u64` field.
fn get_u64(fields: &Vec<(String, JsonValue)>, key: &String) -> (r: Option<u64>)
    ensures
        r == u64_of(lookup(obj_model(*fields, fields.len() as int), key@)),
{
    match crate::json::obj_get(fields, key) {
        Some(JsonValue::UInt(u)) => Some(*u),
        _ => None,
    }
}

/// Finds a required string field.
fn get_str(fields: &Vec<(String, JsonValue)>, key: &String) -> (r: Option<String>)
    ensures
        (match r {
            Some(s) => str_of(lookup(obj_model(*fields, fields.len() as int), key@)) == Some(s@),
            None => str_of(lookup(obj_model(*fields, fields.len() as int), key@)) is None,
        }),
{
    match crate::json::obj_get(fields, key) {
        Some(JsonValue::Str(s)) => Some(s.clone()),
        _ => None,
    }
}

/// Finds a required boolean field.
fn get_bool(fields: &Vec<(String, JsonValue)>, key: &String) -> (r: Option<bool>)
    ensures
        r == bool_of(lookup(obj_model(*fields, fields.len() as int), key@)),
{
    match crate::json::obj_get(fields, key) {
        Some(JsonValue::Bool(b)) => Some(*b),
        _ => None,
    }
}

/// Finds a required number field, kept as the wire carries it.
fn get_num(fields: &Vec<(String, JsonValue)>, key: &String) -> (r: Option<JsonValue>)
    ensures
        opt_model(r) == num_of(lookup(obj_model(*fields, fields.len() as int), key@)),
{
    match crate::json::obj_get(fields, key) {
        Some(JsonValue::UInt(u)) => Some(JsonValue::UInt(*u)),
        Some(JsonValue::NegInt(i)) => Some(JsonValue::NegInt(*i)),
        Some(JsonValue::NumText(s)) => Some(JsonValue::NumText(s.clone())),
        _ => None,
    }
}

/// The response schema of the `getinfo` method.
pub struct GetInfoResponse {
    pub balance: ZecAmount,
    pub blocks: u64,
    pub connections: u64,
    pub difficulty: JsonValue,
    pub errors: String,
    pub keypoololdest: u64,
    pub keypoolsize: u64,
    pub paytxfee: ZecAmount,
    pub protocolversion: u64,
    pub proxy: String,
    pub relayfee: ZecAmount,
    pub testnet: bool,
    pub timeoffset: u64,
    pub version: u64,
    pub walletversion: u64,
}

/// The model of a `getinfo` response.
pub struct GetInfoModel {
    pub balance: JsonModel,
    pub blocks: u64,
    pub connections: u64,
    pub difficulty: JsonModel,
    pub errors: Seq<char>,
    pub keypoololdest: u64,
    pub keypoolsize: u64,
    pub paytxfee: JsonModel,
    pub protocolversion: u64,
    pub proxy: Seq<char>,
    pub relayfee: JsonModel,
    pub testnet: bool,
    pub timeoffset: u64,
    pub version: u64,
    pub walletversion: u64,
}

impl View for GetInfoResponse {
    type V = GetInfoModel;

    open spec fn view(&self) -> GetInfoModel {
        GetInfoModel {
            balance: self.balance@,
            blocks: self.blocks,
            connections: self.connections,
            difficulty: self.difficulty@,
            errors: self.errors@,
            keypoololdest: self.keypoololdest,
            keypoolsize: self.keypoolsize,
            paytxfee: self.paytxfee@,
            protocolversion: self.protocolversion,
            proxy: self.proxy@,
            relayfee: self.relayfee@,
            testnet: self.testnet,
            timeoffset: self.timeoffset,
            version: self.version,
            walletversion: self.walletversion,
        }
    }
}

/// What a `result` payload yields as a `getinfo` response: every required
/// field present with its required type, or nothing.
pub open spec fn getinfo_of(v: JsonModel) -> Option<GetInfoModel> {
    match v {
        JsonModel::Obj(f) => if {
            &&& num_of(lookup(f, "balance"@)) is Some
            &&& u64_of(lookup(f, "blocks"@)) is Some
            &&& u64_of(lookup(f, "connections"@)) is Some
            &&& num_of(lookup(f, "difficulty"@)) is Some
            &&& str_of(lookup(f, "errors"@)) is Some
            &&& u64_of(lookup(f, "keypoololdest"@)) is Some
            &&& u64_of(lookup(f, "keypoolsize"@)) is Some
            &&& num_of(lookup(f, "paytxfee"@)) is Some
            &&& u64_of(lookup(f, "protocolversion"@)) is Some
            &&& str_of(lookup(f, "proxy"@)) is Some
            &&& num_of(lookup(f, "relayfee"@)) is Some
            &&& bool_of(lookup(f, "testnet"@)) is Some
            &&& u64_of(lookup(f, "timeoffset"@)) is Some
            &&& u64_of(lookup(f, "version"@)) is Some
            &&& u64_of(lookup(f, "walletversion"@)) is Some
        } {
            Some(GetInfoModel {
                balance: num_of(lookup(f, "balance"@)).unwrap(),
                blocks: u64_of(lookup(f, "blocks"@)).unwrap(),
                connections: u64_of(lookup(f, "connections"@)).unwrap(),
                difficulty: num_of(lookup(f, "difficulty"@)).unwrap(),
                errors: str_of(lookup(f, "errors"@)).unwrap(),
                keypoololdest: u64_of(lookup(f, "keypoololdest"@)).unwrap(),
                keypoolsize: u64_of(lookup(f, "keypoolsize"@)).unwrap(),
                paytxfee: num_of(lookup(f, "paytxfee"@)).unwrap(),
                protocolversion: u64_of(lookup(f, "protocolversion"@)).unwrap(),
                proxy: str_of(lookup(f, "proxy"@)).unwrap(),
                relayfee: num_of(lookup(f, "relayfee"@)).unwrap(),
                testnet: bool_of(lookup(f, "testnet"@)).unwrap(),
                timeoffset: u64_of(lookup(f, "timeoffset"@)).unwrap(),
                version: u64_of(lookup(f, "version"@)).unwrap(),
                walletversion: u64_of(lookup(f, "walletversion"@)).unwrap(),
            })
        } else {
            None
        },
        _ => None,
    }
}

/// The model of an optional `getinfo` response.
pub open spec fn opt_getinfo_model(r: Option<GetInfoResponse>) -> Option<GetInfoModel> {
    match r {
        Some(resp) => Some(resp@),
        None => None,
    }
}

impl GetInfoResponse {
    /// Decodes a reconciled `result` payload into this schema.
    pub fn from_json(v: &JsonValue) -> (r: Option<GetInfoResponse>)
        ensures
            opt_getinfo_model(r) == getinfo_of(v@),
    {
        match v {
            JsonValue::Obj(fields) => {
                let balance = match get_num(fields, &"balance".to_owned()) {
                    Some(x) => ZecAmount(x),
                    None => { return None; },
                };
                let blocks = match get_u64(fields, &"blocks".to_owned()) {
                    Some(x) => x,
                    None => { return None; },
                };
                let connections = match get_u64(fields, &"connections".to_owned()) {
                    Some(x) => x,
                    None => { return None; },
                };
                let difficulty = match get_num(fields, &"difficulty".to_owned()) {
                    Some(x) => x,
                    None => { return None; },
                };
                let errors = match get_str(fields, &"errors".to_owned()) {
                    Some(x) => x,
                    None => { return None; },
                };
                let keypoololdest = match get_u64(fields, &"keypoololdest".to_owned()) {
                    Some(x) => x,
                    None => { return None; },
                };
                let keypoolsize = match get_u64(fields, &"keypoolsize".to_owned()) {
                    Some(x) => x,
                    None => { return None; },
                };
                let paytxfee = match get_num(fields, &"paytxfee".to_owned()) {
                    Some(x) => ZecAmount(x),
                    None => { return None; },
                };
                let protocolversion = match get_u64(fields, &"protocolversion".to_owned()) {
                    Some(x) => x,
                    None => { return None; },
                };
                let proxy = match get_str(fields, &"proxy".to_owned()) {
                    Some(x) => x,
                    None => { return None; },
                };
                let relayfee = match get_num(fields, &"relayfee".to_owned()) {
                    Some(x) => ZecAmount(x),
                    None => { return None; },
                };
                let testnet = match get_bool(fields, &"testnet".to_owned()) {
                    Some(x) => x,
                    None => { return None; },
                };
                let timeoffset = match get_u64(fields, &"timeoffset".to_owned()) {
                    Some(x) => x,
                    None => { return None; },
                };
                let version = match get_u64(fields, &"version".to_owned()) {
                    Some(x) => x,
                    None => { return None; },
                };
                let walletversion = match get_u64(fields, &"walletversion".to_owned()) {
                    Some(x) => x,
                    None => { return None; },
                };
                Some(GetInfoResponse {
                    balance,
                    blocks,
                    connections,
                    difficulty,
                    errors,
                    keypoololdest,
                    keypoolsize,
                    paytxfee,
                    protocolversion,
                    proxy,
                    relayfee,
                    testnet,
                    timeoffset,
                    version,
                    walletversion,
                })
            },
            _ => None,
        }
    }
}

impl Client {
    /// Begins a `getinfo` call: the method takes no parameters.
    pub fn getinfo_begin(&mut self) -> (r: (u64, String))
        requires
            old(self).next_id_spec() < u64::MAX,
        ensures
            r.0 == old(self).next_id_spec(),
            final(self).next_id_spec() == old(self).next_id_spec() + 1,
            final(self).url_spec() == old(self).url_spec(),
            final(self).auth_spec() == old(self).auth_spec(),
            r.1@ == json_text(request_model(r.0, "getinfo"@, Seq::empty())),
    {
        self.begin_request("getinfo", Vec::new())
    }
}

/// Finishes a `getinfo` call: reconciles the raw response text against the
/// call's identifier and decodes the payload into the method's schema; a
/// payload of any other shape is a `Decode` error.
pub fn getinfo_finish(expected_id: u64, raw: &str) -> (r: Result<GetInfoResponse, ClientError>)
    ensures
        (match reconcile_model(json_parse_of(raw@), expected_id) {
            Err(e) => r matches Err(err) && err@ == e,
            Ok(payload) => (match getinfo_of(payload) {
                Some(m) => r matches Ok(resp) && resp@ == m,
                None => r matches Err(err) && err@ == ErrorModel::Decode,
            }),
        }),
{
    match reconcile_text(raw, expected_id) {
        Err(e) => Err(e),
        Ok(payload) => match GetInfoResponse::from_json(&payload) {
            Some(resp) => Ok(resp),
            None => Err(ClientError::Decode),
        },
    }
}

/// A required field holding a signed 64-bit integer.
pub open spec fn i64_of(v: Option<JsonModel>) -> Option<i64> {
    match v {
        Some(n) => int_of(n),
        None => None,
    }
}

/// A required field of any JSON shape, kept as the wire carries it.
pub open spec fn any_of(v: Option<JsonModel>) -> Option<JsonModel> {
    v
}

/// An optional `u64` field: absent or `null` is accepted as nothing, a
/// present field must hold the required type.
pub open spec fn opt_u64_of(v: Option<JsonModel>) -> Option<Option<u64>> {
    match v {
        None => Some(None),
        Some(JsonModel::Null) => Some(None),
        Some(JsonModel::UInt(u)) => Some(Some(u)),
        Some(_) => None,
    }
}

/// An optional signed 64-bit integer field.
pub open spec fn opt_i64_of(v: Option<JsonModel>) -> Option<Option<i64>> {
    match v {
        None => Some(None),
        Some(JsonModel::Null) => Some(None),
        Some(n) => match int_of(n) {
            Some(i) => Some(Some(i)),
            None => None,
        },
    }
}

/// An optional boolean field.
pub open spec fn opt_bool_of(v: Option<JsonModel>) -> Option<Option<bool>> {
    match v {
        None => Some(None),
        Some(JsonModel::Null) => Some(None),
        Some(JsonModel::Bool(b)) => Some(Some(b)),
        Some(_) => None,
    }
}

/// An optional number field, kept as the wire carries it.
pub open spec fn opt_num_of(v: Option<JsonModel>) -> Option<Option<JsonModel>> {
    match v {
        None => Some(None),
        Some(JsonModel::Null) => Some(None),
        Some(n) => if n is UInt || n is NegInt || n is NumText {
            Some(Some(n))
        } else {
            None
        },
    }
}

/// Finds a required signed 64-bit integer field.
fn get_i64(fields: &Vec<(String, JsonValue)>, key: &String) -> (r: Option<i64>)
    ensures
        r == i64_of(lookup(obj_model(*fields, fields.len() as int), key@)),
{
    match crate::json::obj_get(fields, key) {
        Some(JsonValue::UInt(u)) => if *u <= i64::MAX as u64 {
            Some(*u as i64)
        } else {
            None
        },
        Some(JsonValue::NegInt(i)) => Some(*i),
        _ => None,
    }
}

/// Finds a required field of any JSON shape.
fn get_any(fields: &Vec<(String, JsonValue)>, key: &String) -> (r: Option<JsonValue>)
    ensures
        opt_model(r) == any_of(lookup(obj_model(*fields, fields.len() as int), key@)),
{
    match crate::json::obj_get(fields, key) {
        Some(v) => Some(v.clone_value()),
        None => None,
    }
}

/// Finds an optional `u64` field.
fn get_opt_u64(fields: &Vec<(String, JsonValue)>, key: &String) -> (r: Option<Option<u64>>)
    ensures
        r == opt_u64_of(lookup(obj_model(*fields, fields.len() as int), key@)),
{
    match crate::json::obj_get(fields, key) {
        None => Some(None),
        Some(JsonValue::Null) => Some(None),
        Some(JsonValue::UInt(u)) => Some(Some(*u)),
        Some(_) => None,
    }
}

/// Finds an optional signed 64-bit integer field.
fn get_opt_i64(fields: &Vec<(String, JsonValue)>, key: &String) -> (r: Option<Option<i64>>)
    ensures
        r == opt_i64_of(lookup(obj_model(*fields, fields.len() as int), key@)),
{
    match crate::json::obj_get(fields, key) {
        None => Some(None),
        Some(JsonValue::Null) => Some(None),
        Some(JsonValue::UInt(u)) => if *u <= i64::MAX as u64 {
            Some(Some(*u as i64))
        } else {
            None
        },
        Some(JsonValue::NegInt(i)) => Some(Some(*i)),
        Some(_) => None,
    }
}

/// Finds an optional boolean field.
fn get_opt_bool(fields: &Vec<(String, JsonValue)>, key: &String) -> (r: Option<Option<bool>>)
    ensures
        r == opt_bool_of(lookup(obj_model(*fields, fields.len() as int), key@)),
{
    match crate::json::obj_get(fields, key) {
        None => Some(None),
        Some(JsonValue::Null) => Some(None),
        Some(JsonValue::Bool(b)) => Some(Some(*b)),
        Some(_) => None,
    }
}

/// Finds an optional number field, kept as the wire carries it.
fn get_opt_num(fields: &Vec<(String, JsonValue)>, key: &String) -> (r: Option<Option<JsonValue>>)
    ensures
        (match r {
            Some(Some(n)) => opt_num_of(
                lookup(obj_model(*fields, fields.len() as int), key@),
            ) == Some(Some(n@)),
            Some(None) => opt_num_of(lookup(obj_model(*fields, fields.len() as int), key@))
                == Some(None::<JsonModel>),
            None => opt_num_of(lookup(obj_model(*fields, fields.len() as int), key@)) is None,
        }),
{
    match crate::json::obj_get(fields, key) {
        None => Some(None),
        Some(JsonValue::Null) => Some(None),
        Some(JsonValue::UInt(u)) => Some(Some(JsonValue::UInt(*u))),
        Some(JsonValue::NegInt(i)) => Some(Some(JsonValue::NegInt(*i))),
        Some(JsonValue::NumText(t)) => Some(Some(JsonValue::NumText(t.clone()))),
        Some(_) => None,
    }
}

/// One entry of a chain value pool breakdown.
#[allow(non_snake_case)]
pub struct ValuePool {
    pub id: String,
    pub monitored: bool,
    pub chainValue: Option<ZecAmount>,
    pub chainValueZat: Option<u64>,
    pub valueDelta: Option<ZecAmount>,
    pub valueDeltaZat: Option<i64>,
}

/// The model of one value pool entry.
#[allow(non_snake_case)]
pub struct ValuePoolModel {
    pub id: Seq<char>,
    pub monitored: bool,
    pub chainValue: Option<JsonModel>,
    pub chainValueZat: Option<u64>,
    pub valueDelta: Option<JsonModel>,
    pub valueDeltaZat: Option<i64>,
}

impl View for ValuePool {
    type V = ValuePoolModel;

    open spec fn view(&self) -> ValuePoolModel {
        ValuePoolModel {
            id: self.id@,
            monitored: self.monitored,
            chainValue: match self.chainValue {
                Some(a) => Some(a@),
                None => None,
            },
            chainValueZat: self.chainValueZat,
            valueDelta: match self.valueDelta {
                Some(a) => Some(a@),
                None => None,
            },
            valueDeltaZat: self.valueDeltaZat,
        }
    }
}

/// What a JSON value yields as one value pool entry.
pub open spec fn valuepool_of(v: JsonModel) -> Option<ValuePoolModel> {
    match v {
        JsonModel::Obj(f) => if {
            &&& str_of(lookup(f, "id"@)) is Some
            &&& bool_of(lookup(f, "monitored"@)) is Some
            &&& opt_num_of(lookup(f, "chainValue"@)) is Some
            &&& opt_u64_of(lookup(f, "chainValueZat"@)) is Some
            &&& opt_num_of(lookup(f, "valueDelta"@)) is Some
            &&& opt_i64_of(lookup(f, "valueDeltaZat"@)) is Some
        } {
            Some(ValuePoolModel {
                id: str_of(lookup(f, "id"@)).unwrap(),
                monitored: bool_of(lookup(f, "monitored"@)).unwrap(),
                chainValue: opt_num_of(lookup(f, "chainValue"@)).unwrap(),
                chainValueZat: opt_u64_of(lookup(f, "chainValueZat"@)).unwrap(),
                valueDelta: opt_num_of(lookup(f, "valueDelta"@)).unwrap(),
                valueDeltaZat: opt_i64_of(lookup(f, "valueDeltaZat"@)).unwrap(),
            })
        } else {
            None
        },
        _ => None,
    }
}

impl ValuePool {
    /// Decodes one value pool entry.
    pub fn from_json(v: &JsonValue) -> (r: Option<ValuePool>)
        ensures
            (match r {
                Some(p) => valuepool_of(v@) == Some(p@),
                None => valuepool_of(v@) is None,
            }),
    {
        match v {
            JsonValue::Obj(fields) => {
                let id = match get_str(fields, &"id".to_owned()) {
                    Some(x) => x,
                    None => { return None; },
                };
                let monitored = match get_bool(fields, &"monitored".to_owned()) {
                    Some(x) => x,
                    None => { return None; },
                };
                let chain_value = match get_opt_num(fields, &"chainValue".to_owned()) {
                    Some(Some(x)) => Some(ZecAmount(x)),
                    Some(None) => None,
                    None => { return None; },
                };
                let chain_value_zat = match get_opt_u64(fields, &"chainValueZat".to_owned()) {
                    Some(x) => x,
                    None => { return None; },
                };
                let value_delta = match get_opt_num(fields, &"valueDelta".to_owned()) {
                    Some(Some(x)) => Some(ZecAmount(x)),
                    Some(None) => None,
                    None => { return None; },
                };
                let value_delta_zat = match get_opt_i64(fields, &"valueDeltaZat".to_owned()) {
                    Some(x) => x,
                    None => { return None; },
                };
                Some(ValuePool {
                    id,
                    monitored,
                    chainValue: chain_value,
                    chainValueZat: chain_value_zat,
                    valueDelta: value_delta,
                    valueDeltaZat: value_delta_zat,
                })
            },
            _ => None,
        }
    }
}

/// The description of majority support for one softfork.
pub struct SoftforkMajorityDesc {
    pub status: bool,
    pub found: i64,
    pub required: i64,
    /// The majority window; its sub-schema is an intentionally open gap, so
    /// the payload is kept as the wire carries it.
    pub window: JsonValue,
}

/// The model of a majority description.
pub struct SoftforkMajorityDescModel {
    pub status: bool,
    pub found: i64,
    pub required: i64,
    pub window: JsonModel,
}

impl View for SoftforkMajorityDesc {
    type V = SoftforkMajorityDescModel;

    open spec fn view(&self) -> SoftforkMajorityDescModel {
        SoftforkMajorityDescModel {
            status: self.status,
            found: self.found,
            required: self.required,
            window: self.window@,
        }
    }
}

/// What a JSON value yields as a majority description.
pub open spec fn majority_of(v: JsonModel) -> Option<SoftforkMajorityDescModel> {
    match v {
        JsonModel::Obj(f) => if {
            &&& bool_of(lookup(f, "status"@)) is Some
            &&& i64_of(lookup(f, "found"@)) is Some
            &&& i64_of(lookup(f, "required"@)) is Some
            &&& any_of(lookup(f, "window"@)) is Some
        } {
            Some(SoftforkMajorityDescModel {
                status: bool_of(lookup(f, "status"@)).unwrap(),
                found: i64_of(lookup(f, "found"@)).unwrap(),
                required: i64_of(lookup(f, "required"@)).unwrap(),
                window: any_of(lookup(f, "window"@)).unwrap(),
            })
        } else {
            None
        },
        _ => None,
    }
}

impl SoftforkMajorityDesc {
    /// Decodes one majority description.
    pub fn from_json(v: &JsonValue) -> (r: Option<SoftforkMajorityDesc>)
        ensures
            (match r {
                Some(d) => majority_of(v@) == Some(d@),
                None => majority_of(v@) is None,
            }),
    {
        match v {
            JsonValue::Obj(fields) => {
                let status = match get_bool(fields, &"status".to_owned()) {
                    Some(x) => x,
                    None => { return None; },
                };
                let found = match get_i64(fields, &"found".to_owned()) {
                    Some(x) => x,
                    None => { return None; },
                };
                let required = match get_i64(fields, &"required".to_owned()) {
                    Some(x) => x,
                    None => { return None; },
                };
                let window = match get_any(fields, &"window".to_owned()) {
                    Some(x) => x,
                    None => { return None; },
                };
                Some(SoftforkMajorityDesc { status, found, required, window })
            },
            _ => None,
        }
    }
}

/// The description of one softfork.
pub struct Softfork {
    pub id: String,
    pub version: i64,
    pub enforce: SoftforkMajorityDesc,
    pub reject: SoftforkMajorityDesc,
}

/// The model of one softfork description.
pub struct SoftforkModel {
    pub id: Seq<char>,
    pub version: i64,
    pub enforce: SoftforkMajorityDescModel,
    pub reject: SoftforkMajorityDescModel,
}

impl View for Softfork {
    type V = SoftforkModel;

    open spec fn view(&self) -> SoftforkModel {
        SoftforkModel {
            id: self.id@,
            version: self.version,
            enforce: self.enforce@,
            reject: self.reject@,
        }
    }
}

/// What a JSON value yields as one softfork description.
pub open spec fn softfork_of(v: JsonModel) -> Option<SoftforkModel> {
    match v {
        JsonModel::Obj(f) => if {
            &&& str_of(lookup(f, "id"@)) is Some
            &&& i64_of(lookup(f, "version"@)) is Some
            &&& lookup(f, "enforce"@) is Some && majority_of(lookup(f, "enforce"@).unwrap())
                is Some
            &&& lookup(f, "reject"@) is Some && majority_of(lookup(f, "reject"@).unwrap())
                is Some
        } {
            Some(SoftforkModel {
                id: str_of(lookup(f, "id"@)).unwrap(),
                version: i64_of(lookup(f, "version"@)).unwrap(),
                enforce: majority_of(lookup(f, "enforce"@).unwrap()).unwrap(),
                reject: majority_of(lookup(f, "reject"@).unwrap()).unwrap(),
            })
        } else {
            None
        },
        _ => None,
    }
}

impl Softfork {
    /// Decodes one softfork description.
    pub fn from_json(v: &JsonValue) -> (r: Option<Softfork>)
        ensures
            (match r {
                Some(d) => softfork_of(v@) == Some(d@),
                None => softfork_of(v@) is None,
            }),
    {
        match v {
            JsonValue::Obj(fields) => {
                let id = match get_str(fields, &"id".to_owned()) {
                    Some(x) => x,
                    None => { return None; },
                };
                let version = match get_i64(fields, &"version".to_owned()) {
                    Some(x) => x,
                    None => { return None; },
                };
                let enforce = match crate::json::obj_get(fields, &"enforce".to_owned()) {
                    Some(ev) => match SoftforkMajorityDesc::from_json(ev) {
                        Some(d) => d,
                        None => { return None; },
                    },
                    None => { return None; },
                };
                let reject = match crate::json::obj_get(fields, &"reject".to_owned()) {
                    Some(rv) => match SoftforkMajorityDesc::from_json(rv) {
                        Some(d) => d,
                        None => { return None; },
                    },
                    None => { return None; },
                };
                Some(Softfork { id, version, enforce, reject })
            },
            _ => None,
        }
    }
}

/// The description of one network upgrade.
pub struct NetworkUpgradeDesc {
    pub name: String,
    pub activationheight: u64,
    pub status: String,
    pub info: String,
}

/// The model of one network upgrade description.
pub struct NetworkUpgradeDescModel {
    pub name: Seq<char>,
    pub activationheight: u64,
    pub status: Seq<char>,
    pub info: Seq<char>,
}

impl View for NetworkUpgradeDesc {
    type V = NetworkUpgradeDescModel;

    open spec fn view(&self) -> NetworkUpgradeDescModel {
        NetworkUpgradeDescModel {
            name: self.name@,
            activationheight: self.activationheight,
            status: self.status@,
            info: self.info@,
        }
    }
}

/// What a JSON value yields as one network upgrade description.
pub open spec fn upgrade_of(v: JsonModel) -> Option<NetworkUpgradeDescModel> {
    match v {
        JsonModel::Obj(f) => if {
            &&& str_of(lookup(f, "name"@)) is Some
            &&& u64_of(lookup(f, "activationheight"@)) is Some
            &&& str_of(lookup(f, "status"@)) is Some
            &&& str_of(lookup(f, "info"@)) is Some
        } {
            Some(NetworkUpgradeDescModel {
                name: str_of(lookup(f, "name"@)).unwrap(),
                activationheight: u64_of(lookup(f, "activationheight"@)).unwrap(),
                status: str_of(lookup(f, "status"@)).unwrap(),
                info: str_of(lookup(f, "info"@)).unwrap(),
            })
        } else {
            None
        },
        _ => None,
    }
}

impl NetworkUpgradeDesc {
    /// Decodes one network upgrade description.
    pub fn from_json(v: &JsonValue) -> (r: Option<NetworkUpgradeDesc>)
        ensures
            (match r {
                Some(d) => upgrade_of(v@) == Some(d@),
                None => upgrade_of(v@) is None,
            }),
    {
        match v {
            JsonValue::Obj(fields) => {
                let name = match get_str(fields, &"name".to_owned()) {
                    Some(x) => x,
                    None => { return None; },
                };
                let activationheight = match get_u64(fields, &"activationheight".to_owned()) {
                    Some(x) => x,
                    None => { return None; },
                };
                let status = match get_str(fields, &"status".to_owned()) {
                    Some(x) => x,
                    None => { return None; },
                };
                let info = match get_str(fields, &"info".to_owned()) {
                    Some(x) => x,
                    None => { return None; },
                };
                Some(NetworkUpgradeDesc { name, activationheight, status, info })
            },
            _ => None,
        }
    }
}

/// The chain tip consensus branch identifiers.
pub struct Consensus {
    pub chaintip: String,
    pub nextblock: String,
}

/// The model of the consensus branch identifiers.
pub struct ConsensusModel {
    pub chaintip: Seq<char>,
    pub nextblock: Seq<char>,
}

impl View for Consensus {
    type V = ConsensusModel;

    open spec fn view(&self) -> ConsensusModel {
        ConsensusModel { chaintip: self.chaintip@, nextblock: self.nextblock@ }
    }
}

/// What a JSON value yields as the consensus branch identifiers.
pub open spec fn consensus_of(v: JsonModel) -> Option<ConsensusModel> {
    match v {
        JsonModel::Obj(f) => if {
            &&& str_of(lookup(f, "chaintip"@)) is Some
            &&& str_of(lookup(f, "nextblock"@)) is Some
        } {
            Some(ConsensusModel {
                chaintip: str_of(lookup(f, "chaintip"@)).unwrap(),
                nextblock: str_of(lookup(f, "nextblock"@)).unwrap(),
            })
        } else {
            None
        },
        _ => None,
    }
}

impl Consensus {
    /// Decodes the consensus branch identifiers.
    pub fn from_json(v: &JsonValue) -> (r: Option<Consensus>)
        ensures
            (match r {
                Some(d) => consensus_of(v@) == Some(d@),
                None => consensus_of(v@) is None,
            }),
    {
        match v {
            JsonValue::Obj(fields) => {
                let chaintip = match get_str(fields, &"chaintip".to_owned()) {
                    Some(x) => x,
                    None => { return None; },
                };
                let nextblock = match get_str(fields, &"nextblock".to_owned()) {
                    Some(x) => x,
                    None => { return None; },
                };
                Some(Consensus { chaintip, nextblock })
            },
            _ => None,
        }
    }
}

/// The models of a sequence of value pool entries.
pub open spec fn pools_model(vs: Seq<ValuePool>) -> Seq<ValuePoolModel> {
    vs.map_values(|p: ValuePool| p@)
}

/// The models of a sequence of softfork descriptions.
pub open spec fn softforks_model(vs: Seq<Softfork>) -> Seq<SoftforkModel> {
    vs.map_values(|p: Softfork| p@)
}

/// The models of a sequence of named network upgrade descriptions.
pub open spec fn upgrades_model(vs: Seq<(String, NetworkUpgradeDesc)>) -> Seq<
    (Seq<char>, NetworkUpgradeDescModel),
> {
    vs.map_values(|p: (String, NetworkUpgradeDesc)| (p.0@, p.1@))
}

/// What the first `n` elements of an array yield as value pool entries:
/// every element must decode.
pub open spec fn valuepools_of(ms: Seq<JsonModel>, n: int) -> Option<Seq<ValuePoolModel>>
    decreases n,
{
    if n <= 0 {
        Some(Seq::empty())
    } else if n > ms.len() {
        None
    } else {
        match (valuepools_of(ms, n - 1), valuepool_of(ms[n - 1])) {
            (Some(s), Some(p)) => Some(s.push(p)),
            _ => None,
        }
    }
}

/// What the first `n` elements of an array yield as softfork descriptions.
pub open spec fn softforks_of(ms: Seq<JsonModel>, n: int) -> Option<Seq<SoftforkModel>>
    decreases n,
{
    if n <= 0 {
        Some(Seq::empty())
    } else if n > ms.len() {
        None
    } else {
        match (softforks_of(ms, n - 1), softfork_of(ms[n - 1])) {
            (Some(s), Some(p)) => Some(s.push(p)),
            _ => None,
        }
    }
}

/// What the first `n` members of an object yield as named network upgrade
/// descriptions, in member order.
pub open spec fn upgrades_of(ms: Seq<(Seq<char>, JsonModel)>, n: int) -> Option<
    Seq<(Seq<char>, NetworkUpgradeDescModel)>,
>
    decreases n,
{
    if n <= 0 {
        Some(Seq::empty())
    } else if n > ms.len() {
        None
    } else {
        match (upgrades_of(ms, n - 1), upgrade_of(ms[n - 1].1)) {
            (Some(s), Some(p)) => Some(s.push((ms[n - 1].0, p))),
            _ => None,
        }
    }
}

/// A failed element makes the whole array fail to decode.
proof fn lemma_valuepools_fail(ms: Seq<JsonModel>, i: int, m: int)
    requires
        0 <= i < m <= ms.len(),
        valuepool_of(ms[i]) is None,
    ensures
        valuepools_of(ms, m) is None,
    decreases m,
{
    if m - 1 > i {
        lemma_valuepools_fail(ms, i, m - 1);
    }
}

/// A failed element makes the whole array fail to decode.
proof fn lemma_softforks_fail(ms: Seq<JsonModel>, i: int, m: int)
    requires
        0 <= i < m <= ms.len(),
        softfork_of(ms[i]) is None,
    ensures
        softforks_of(ms, m) is None,
    decreases m,
{
    if m - 1 > i {
        lemma_softforks_fail(ms, i, m - 1);
    }
}

/// A failed member makes the whole object fail to decode.
proof fn lemma_upgrades_fail(ms: Seq<(Seq<char>, JsonModel)>, i: int, m: int)
    requires
        0 <= i < m <= ms.len(),
        upgrade_of(ms[i].1) is None,
    ensures
        upgrades_of(ms, m) is None,
    decreases m,
{
    if m - 1 > i {
        lemma_upgrades_fail(ms, i, m - 1);
    }
}

/// Decodes every element of an array as a value pool entry.
fn decode_valuepools(a: &Vec<JsonValue>) -> (r: Option<Vec<ValuePool>>)
    ensures
        (match r {
            Some(vs) => valuepools_of(arr_model(*a, a.len() as int), a.len() as int) == Some(
                pools_model(vs@),
            ),
            None => valuepools_of(arr_model(*a, a.len() as int), a.len() as int) is None,
        }),
{
    let ghost ms = arr_model(*a, a.len() as int);
    proof {
        lemma_arr_model(*a, a.len() as int);
    }
    let n = a.len();
    let mut out: Vec<ValuePool> = Vec::new();
    let mut i: usize = 0;
    proof {
        assert(pools_model(out@) =~= Seq::<ValuePoolModel>::empty());
    }
    while i < n
        invariant
            n == a.len(),
            i <= n,
            out.len() == i,
            ms == arr_model(*a, a.len() as int),
            ms.len() == n,
            forall|k: int| 0 <= k < n ==> ms[k] == crate::json::value_model(a[k]),
            valuepools_of(ms, i as int) == Some(pools_model(out@)),
        decreases n - i,
    {
        let ghost prev = out@;
        match ValuePool::from_json(&a[i]) {
            Some(p) => {
                out.push(p);
                proof {
                    assert(pools_model(prev.push(out@.last())) =~= pools_model(prev).push(
                        out@.last()@,
                    ));
                }
            },
            None => {
                proof {
                    lemma_valuepools_fail(ms, i as int, n as int);
                }
                return None;
            },
        }
        i += 1;
    }
    Some(out)
}

/// Decodes every element of an array as a softfork description.
fn decode_softforks(a: &Vec<JsonValue>) -> (r: Option<Vec<Softfork>>)
    ensures
        (match r {
            Some(vs) => softforks_of(arr_model(*a, a.len() as int), a.len() as int) == Some(
                softforks_model(vs@),
            ),
            None => softforks_of(arr_model(*a, a.len() as int), a.len() as int) is None,
        }),
{
    let ghost ms = arr_model(*a, a.len() as int);
    proof {
        lemma_arr_model(*a, a.len() as int);
    }
    let n = a.len();
    let mut out: Vec<Softfork> = Vec::new();
    let mut i: usize = 0;
    proof {
        assert(softforks_model(out@) =~= Seq::<SoftforkModel>::empty());
    }
    while i < n
        invariant
            n == a.len(),
            i <= n,
            out.len() == i,
            ms == arr_model(*a, a.len() as int),
            ms.len() == n,
            forall|k: int| 0 <= k < n ==> ms[k] == crate::json::value_model(a[k]),
            softforks_of(ms, i as int) == Some(softforks_model(out@)),
        decreases n - i,
    {
        let ghost prev = out@;
        match Softfork::from_json(&a[i]) {
            Some(p) => {
                out.push(p);
                proof {
                    assert(softforks_model(prev.push(out@.last())) =~= softforks_model(
                        prev,
                    ).push(out@.last()@));
                }
            },
            None => {
                proof {
                    lemma_softforks_fail(ms, i as int, n as int);
                }
                return None;
            },
        }
        i += 1;
    }
    Some(out)
}

/// Decodes every member of an object as a named network upgrade
/// description, keeping the wire's member order.
fn decode_upgrades(o: &Vec<(String, JsonValue)>) -> (r: Option<Vec<(String, NetworkUpgradeDesc)>>)
    ensures
        (match r {
            Some(vs) => upgrades_of(obj_model(*o, o.len() as int), o.len() as int) == Some(
                upgrades_model(vs@),
            ),
            None => upgrades_of(obj_model(*o, o.len() as int), o.len() as int) is None,
        }),
{
    let ghost ms = obj_model(*o, o.len() as int);
    proof {
        lemma_obj_model(*o, o.len() as int);
    }
    let n = o.len();
    let mut out: Vec<(String, NetworkUpgradeDesc)> = Vec::new();
    let mut i: usize = 0;
    proof {
        assert(upgrades_model(out@) =~= Seq::<(Seq<char>, NetworkUpgradeDescModel)>::empty());
    }
    while i < n
        invariant
            n == o.len(),
            i <= n,
            out.len() == i,
            ms == obj_model(*o, o.len() as int),
            ms.len() == n,
            forall|k: int| 0 <= k < n ==> ms[k] == (o[k].0@, crate::json::value_model(o[k].1)),
            upgrades_of(ms, i as int) == Some(upgrades_model(out@)),
        decreases n - i,
    {
        let ghost prev = out@;
        match NetworkUpgradeDesc::from_json(&o[i].1) {
            Some(d) => {
                let key = o[i].0.clone();
                out.push((key, d));
                proof {
                    assert(upgrades_model(prev.push(out@.last())) =~= upgrades_model(
                        prev,
                    ).push((out@.last().0@, out@.last().1@)));
                }
            },
            None => {
                proof {
                    lemma_upgrades_fail(ms, i as int, n as int);
                }
                return None;
            },
        }
        i += 1;
    }
    Some(out)
}

/// The `valuePools` field of a payload, when it is an array whose every
/// element decodes.
pub open spec fn pools_field_of(f: Seq<(Seq<char>, JsonModel)>) -> Option<Seq<ValuePoolModel>> {
    match lookup(f, "valuePools"@) {
        Some(JsonModel::Arr(ms)) => valuepools_of(ms, ms.len() as int),
        _ => None,
    }
}

/// The `softforks` field of a payload.
pub open spec fn softforks_field_of(f: Seq<(Seq<char>, JsonModel)>) -> Option<Seq<SoftforkModel>> {
    match lookup(f, "softforks"@) {
        Some(JsonModel::Arr(ms)) => softforks_of(ms, ms.len() as int),
        _ => None,
    }
}

/// The `upgrades` field of a payload.
pub open spec fn upgrades_field_of(f: Seq<(Seq<char>, JsonModel)>) -> Option<
    Seq<(Seq<char>, NetworkUpgradeDescModel)>,
> {
    match lookup(f, "upgrades"@) {
        Some(JsonModel::Obj(ms)) => upgrades_of(ms, ms.len() as int),
        _ => None,
    }
}

/// The `consensus` field of a payload.
pub open spec fn consensus_field_of(f: Seq<(Seq<char>, JsonModel)>) -> Option<ConsensusModel> {
    match lookup(f, "consensus"@) {
        Some(v) => consensus_of(v),
        None => None,
    }
}

/// The response schema of the `getblockchaininfo` method. The network
/// upgrade descriptions arrive as a JSON object and are kept as a list of
/// named entries in the wire's member order.
#[allow(non_snake_case)]
pub struct GetBlockChainInfoResponse {
    pub chain: String,
    pub blocks: u64,
    pub headers: u64,
    pub bestblockhash: String,
    pub difficulty: JsonValue,
    pub verificationprogress: JsonValue,
    pub chainwork: String,
    pub pruned: bool,
    pub size_on_disk: u64,
    pub commitments: u64,
    pub valuePools: Vec<ValuePool>,
    pub softforks: Vec<Softfork>,
    pub upgrades: Vec<(String, NetworkUpgradeDesc)>,
    pub consensus: Consensus,
    pub pruneheight: Option<u64>,
    pub fullyNotified: Option<bool>,
}

/// The model of a `getblockchaininfo` response.
#[allow(non_snake_case)]
pub struct GetBlockChainInfoModel {
    pub chain: Seq<char>,
    pub blocks: u64,
    pub headers: u64,
    pub bestblockhash: Seq<char>,
    pub difficulty: JsonModel,
    pub verificationprogress: JsonModel,
    pub chainwork: Seq<char>,
    pub pruned: bool,
    pub size_on_disk: u64,
    pub commitments: u64,
    pub valuePools: Seq<ValuePoolModel>,
    pub softforks: Seq<SoftforkModel>,
    pub upgrades: Seq<(Seq<char>, NetworkUpgradeDescModel)>,
    pub consensus: ConsensusModel,
    pub pruneheight: Option<u64>,
    pub fullyNotified: Option<bool>,
}

impl View for GetBlockChainInfoResponse {
    type V = GetBlockChainInfoModel;

    open spec fn view(&self) -> GetBlockChainInfoModel {
        GetBlockChainInfoModel {
            chain: self.chain@,
            blocks: self.blocks,
            headers: self.headers,
            bestblockhash: self.bestblockhash@,
            difficulty: self.difficulty@,
            verificationprogress: self.verificationprogress@,
            chainwork: self.chainwork@,
            pruned: self.pruned,
            size_on_disk: self.size_on_disk,
            commitments: self.commitments,
            valuePools: pools_model(self.valuePools@),
            softforks: softforks_model(self.softforks@),
            upgrades: upgrades_model(self.upgrades@),
            consensus: self.consensus@,
            pruneheight: self.pruneheight,
            fullyNotified: self.fullyNotified,
        }
    }
}

/// What a `result` payload yields as a `getblockchaininfo` response.
pub open spec fn getblockchaininfo_of(v: JsonModel) -> Option<GetBlockChainInfoModel> {
    match v {
        JsonModel::Obj(f) => if {
            &&& str_of(lookup(f, "chain"@)) is Some
            &&& u64_of(lookup(f, "blocks"@)) is Some
            &&& u64_of(lookup(f, "headers"@)) is Some
            &&& str_of(lookup(f, "bestblockhash"@)) is Some
            &&& num_of(lookup(f, "difficulty"@)) is Some
            &&& num_of(lookup(f, "verificationprogress"@)) is Some
            &&& str_of(lookup(f, "chainwork"@)) is Some
            &&& bool_of(lookup(f, "pruned"@)) is Some
            &&& u64_of(lookup(f, "size_on_disk"@)) is Some
            &&& u64_of(lookup(f, "commitments"@)) is Some
            &&& pools_field_of(f) is Some
            &&& softforks_field_of(f) is Some
            &&& upgrades_field_of(f) is Some
            &&& consensus_field_of(f) is Some
            &&& opt_u64_of(lookup(f, "pruneheight"@)) is Some
            &&& opt_bool_of(lookup(f, "fullyNotified"@)) is Some
        } {
            Some(GetBlockChainInfoModel {
                chain: str_of(lookup(f, "chain"@)).unwrap(),
                blocks: u64_of(lookup(f, "blocks"@)).unwrap(),
                headers: u64_of(lookup(f, "headers"@)).unwrap(),
                bestblockhash: str_of(lookup(f, "bestblockhash"@)).unwrap(),
                difficulty: num_of(lookup(f, "difficulty"@)).unwrap(),
                verificationprogress: num_of(lookup(f, "verificationprogress"@)).unwrap(),
                chainwork: str_of(lookup(f, "chainwork"@)).unwrap(),
                pruned: bool_of(lookup(f, "pruned"@)).unwrap(),
                size_on_disk: u64_of(lookup(f, "size_on_disk"@)).unwrap(),
                commitments: u64_of(lookup(f, "commitments"@)).unwrap(),
                valuePools: pools_field_of(f).unwrap(),
                softforks: softforks_field_of(f).unwrap(),
                upgrades: upgrades_field_of(f).unwrap(),
                consensus: consensus_field_of(f).unwrap(),
                pruneheight: opt_u64_of(lookup(f, "pruneheight"@)).unwrap(),
                fullyNotified: opt_bool_of(lookup(f, "fullyNotified"@)).unwrap(),
            })
        } else {
            None
        },
        _ => None,
    }
}

/// The model of an optional `getblockchaininfo` response.
pub open spec fn opt_getblockchaininfo_model(r: Option<GetBlockChainInfoResponse>) -> Option<
    GetBlockChainInfoModel,
> {
    match r {
        Some(resp) => Some(resp@),
        None => None,
    }
}

impl GetBlockChainInfoResponse {
    /// Decodes a reconciled `result` payload into this schema.
    pub fn from_json(v: &JsonValue) -> (r: Option<GetBlockChainInfoResponse>)
        ensures
            opt_getblockchaininfo_model(r) == getblockchaininfo_of(v@),
    {
        match v {
            JsonValue::Obj(fields) => {
                let chain = match get_str(fields, &"chain".to_owned()) {
                    Some(x) => x,
                    None => { return None; },
                };
                let blocks = match get_u64(fields, &"blocks".to_owned()) {
                    Some(x) => x,
                    None => { return None; },
                };
                let headers = match get_u64(fields, &"headers".to_owned()) {
                    Some(x) => x,
                    None => { return None; },
                };
                let bestblockhash = match get_str(fields, &"bestblockhash".to_owned()) {
                    Some(x) => x,
                    None => { return None; },
                };
                let difficulty = match get_num(fields, &"difficulty".to_owned()) {
                    Some(x) => x,
                    None => { return None; },
                };
                let verificationprogress = match get_num(
                    fields,
                    &"verificationprogress".to_owned(),
                ) {
                    Some(x) => x,
                    None => { return None; },
                };
                let chainwork = match get_str(fields, &"chainwork".to_owned()) {
                    Some(x) => x,
                    None => { return None; },
                };
                let pruned = match get_bool(fields, &"pruned".to_owned()) {
                    Some(x) => x,
                    None => { return None; },
                };
                let size_on_disk = match get_u64(fields, &"size_on_disk".to_owned()) {
                    Some(x) => x,
                    None => { return None; },
                };
                let commitments = match get_u64(fields, &"commitments".to_owned()) {
                    Some(x) => x,
                    None => { return None; },
                };
                let value_pools = match crate::json::obj_get(fields, &"valuePools".to_owned()) {
                    Some(JsonValue::Arr(a)) => match ({
                        proof {
                            lemma_arr_model(*a, a.len() as int);
                        }
                        decode_valuepools(a)
                    }) {
                        Some(vs) => vs,
                        None => { return None; },
                    },
                    _ => { return None; },
                };
                let softforks = match crate::json::obj_get(fields, &"softforks".to_owned()) {
                    Some(JsonValue::Arr(a)) => match ({
                        proof {
                            lemma_arr_model(*a, a.len() as int);
                        }
                        decode_softforks(a)
                    }) {
                        Some(vs) => vs,
                        None => { return None; },
                    },
                    _ => { return None; },
                };
                let upgrades = match crate::json::obj_get(fields, &"upgrades".to_owned()) {
                    Some(JsonValue::Obj(o)) => match ({
                        proof {
                            lemma_obj_model(*o, o.len() as int);
                        }
                        decode_upgrades(o)
                    }) {
                        Some(vs) => vs,
                        None => { return None; },
                    },
                    _ => { return None; },
                };
                let consensus = match crate::json::obj_get(fields, &"consensus".to_owned()) {
                    Some(cv) => match Consensus::from_json(cv) {
                        Some(c) => c,
                        None => { return None; },
                    },
                    None => { return None; },
                };
                let pruneheight = match get_opt_u64(fields, &"pruneheight".to_owned()) {
                    Some(x) => x,
                    None => { return None; },
                };
                let fully_notified = match get_opt_bool(fields, &"fullyNotified".to_owned()) {
                    Some(x) => x,
                    None => { return None; },
                };
                Some(GetBlockChainInfoResponse {
                    chain,
                    blocks,
                    headers,
                    bestblockhash,
                    difficulty,
                    verificationprogress,
                    chainwork,
                    pruned,
                    size_on_disk,
                    commitments,
                    valuePools: value_pools,
                    softforks,
                    upgrades,
                    consensus,
                    pruneheight,
                    fullyNotified: fully_notified,
                })
            },
            _ => None,
        }
    }
}

impl Client {
    /// Begins a `getblockchaininfo` call: the method takes no parameters.
    pub fn getblockchaininfo_begin(&mut self) -> (r: (u64, String))
        requires
            old(self).next_id_spec() < u64::MAX,
        ensures
            r.0 == old(self).next_id_spec(),
            final(self).next_id_spec() == old(self).next_id_spec() + 1,
            final(self).url_spec() == old(self).url_spec(),
            final(self).auth_spec() == old(self).auth_spec(),
            r.1@ == json_text(request_model(r.0, "getblockchaininfo"@, Seq::empty())),
    {
        self.begin_request("getblockchaininfo", Vec::new())
    }
}

/// Finishes a `getblockchaininfo` call: reconciles the raw response text
/// against the call's identifier and decodes the payload into the method's
/// schema; a payload of any other shape is a `Decode` error.
pub fn getblockchaininfo_finish(expected_id: u64, raw: &str) -> (r: Result<
    GetBlockChainInfoResponse,
    ClientError,
>)
    ensures
        (match reconcile_model(json_parse_of(raw@), expected_id) {
            Err(e) => r matches Err(err) && err@ == e,
            Ok(payload) => (match getblockchaininfo_of(payload) {
                Some(m) => r matches Ok(resp) && resp@ == m,
                None => r matches Err(err) && err@ == ErrorModel::Decode,
            }),
        }),
{
    match reconcile_text(raw, expected_id) {
        Err(e) => Err(e),
        Ok(payload) => match GetBlockChainInfoResponse::from_json(&payload) {
            Some(resp) => Ok(resp),
            None => Err(ClientError::Decode),
        },
    }
}

} // verus!
