//! Tests of the request envelope codec and the response reconciliation.

use zcash_rcli::{Client, ClientError, JsonValue, RequestEnvelope};
use zcash_rcli::envelope::reconcile_text;
use zcash_rcli::json::parse_json_text;

#[test]
fn identifier_uniqueness() {
    let mut client = Client::new("localhost:8232".to_string(), "cookie".to_string());
    let mut ids: Vec<u64> = Vec::new();
    for _ in 0..5 {
        let (id, _body) = client.getinfo_begin();
        ids.push(id);
    }
    assert_eq!(ids, vec![0, 1, 2, 3, 4]);
    for i in 0..ids.len() {
        for j in (i + 1)..ids.len() {
            assert!(ids[i] < ids[j]);
        }
    }
}

#[test]
fn request_wire_shape() {
    let mut client = Client::new("localhost:8232".to_string(), "cookie".to_string());
    let (id, body) = client.getinfo_begin();
    assert_eq!(id, 0);
    assert_eq!(
        body,
        "{\"jsonrpc\":\"1.0\",\"id\":0,\"method\":\"getinfo\",\"params\":[]}"
    );
}

#[test]
fn request_roundtrip() {
    let mut client = Client::new("localhost:8232".to_string(), "cookie".to_string());
    let (id, body) = client.getinfo_begin();
    let req = RequestEnvelope::from_text(&body).expect("the envelope parses back");
    assert_eq!(req.id, id);
    assert_eq!(req.method, "getinfo");
    assert_eq!(req.params.len(), 0);
}

#[test]
fn request_roundtrip_with_params() {
    let mut client = Client::new("localhost:8232".to_string(), "cookie".to_string());
    let params = vec![
        JsonValue::Str("a\"b\\c\nd".to_string()),
        JsonValue::NegInt(-5),
        JsonValue::UInt(7),
        JsonValue::Bool(true),
        JsonValue::Null,
    ];
    let (id, body) = client.begin_request("z_sendmany", params);
    let req = RequestEnvelope::from_text(&body).expect("the envelope parses back");
    assert_eq!(req.id, id);
    assert_eq!(req.method, "z_sendmany");
    assert_eq!(req.params.len(), 5);
    match &req.params[0] {
        JsonValue::Str(s) => assert_eq!(s, "a\"b\\c\nd"),
        _ => panic!("unexpected param shape"),
    }
    assert!(matches!(req.params[1], JsonValue::NegInt(-5)));
    assert!(matches!(req.params[2], JsonValue::UInt(7)));
    assert!(matches!(req.params[3], JsonValue::Bool(true)));
    assert!(matches!(req.params[4], JsonValue::Null));
}

#[test]
fn negative_number_rendering() {
    let mut client = Client::new("h".to_string(), "c".to_string());
    let (_, body) = client.begin_request("m", vec![JsonValue::NegInt(-5)]);
    assert_eq!(
        body,
        "{\"jsonrpc\":\"1.0\",\"id\":0,\"method\":\"m\",\"params\":[-5]}"
    );
}

#[test]
fn mismatch_precedes_rpc_error() {
    let raw = "{\"id\":5,\"error\":{\"code\":-1,\"message\":\"boom\"}}";
    let r = reconcile_text(raw, 0);
    assert!(matches!(r, Err(ClientError::Mismatch)));
}

#[test]
fn both_populated_yields_rpc_error() {
    let raw = "{\"id\":0,\"result\":{\"x\":1},\"error\":{\"code\":2,\"message\":\"m\"}}";
    match reconcile_text(raw, 0) {
        Err(ClientError::Rpc { code, message }) => {
            assert_eq!(code, 2);
            assert_eq!(message, "m");
        },
        _ => panic!("expected the server error to be surfaced"),
    }
}

#[test]
fn neither_populated_is_malformed() {
    let raw = "{\"id\":0}";
    assert!(matches!(reconcile_text(raw, 0), Err(ClientError::Malformed)));
}

#[test]
fn null_fields_are_absent() {
    let raw = "{\"id\":0,\"result\":null,\"error\":null}";
    assert!(matches!(reconcile_text(raw, 0), Err(ClientError::Malformed)));
}

#[test]
fn null_id_is_tolerated() {
    let raw = "{\"id\":null,\"error\":{\"code\":-8,\"message\":\"no\"}}";
    match reconcile_text(raw, 3) {
        Err(ClientError::Rpc { code, message }) => {
            assert_eq!(code, -8);
            assert_eq!(message, "no");
        },
        _ => panic!("a null identifier must not count as a mismatch"),
    }
}

#[test]
fn invalid_json_is_malformed() {
    assert!(matches!(reconcile_text("not json", 0), Err(ClientError::Malformed)));
    assert!(matches!(reconcile_text("[1,2,3]", 0), Err(ClientError::Malformed)));
}

#[test]
fn successful_reconciliation_returns_payload() {
    let raw = "{\"id\":1,\"result\":{\"k\":10},\"error\":null}";
    match reconcile_text(raw, 1) {
        Ok(JsonValue::Obj(members)) => {
            assert_eq!(members.len(), 1);
            assert_eq!(members[0].0, "k");
            assert!(matches!(members[0].1, JsonValue::UInt(10)));
        },
        _ => panic!("expected the result payload"),
    }
}

#[test]
fn parse_keeps_number_shapes() {
    let v = parse_json_text("{\"a\":1,\"b\":-2,\"c\":0.5}").expect("valid JSON");
    match v {
        JsonValue::Obj(members) => {
            assert!(matches!(members[0].1, JsonValue::UInt(1)));
            assert!(matches!(members[1].1, JsonValue::NegInt(-2)));
            match &members[2].1 {
                JsonValue::NumText(t) => assert_eq!(t, "0.5"),
                _ => panic!("a fractional number keeps its text"),
            }
        },
        _ => panic!("expected an object"),
    }
}

#[test]
fn from_env_missing_host() {
    match Client::from_env(None, Some("cookie".to_string())) {
        Err(ClientError::Environment { variable }) => assert_eq!(variable, "ZCASHRPC_HOST"),
        _ => panic!("expected an environment error naming the host variable"),
    }
}

#[test]
fn from_env_missing_auth() {
    match Client::from_env(Some("localhost:8232".to_string()), None) {
        Err(ClientError::Environment { variable }) => assert_eq!(variable, "ZCASHRPC_AUTH"),
        _ => panic!("expected an environment error naming the auth variable"),
    }
}

#[test]
fn from_env_complete() {
    let client = Client::from_env(Some("localhost:8232".to_string()), Some("abc".to_string()))
        .expect("both variables are present");
    assert_eq!(client.url().as_str(), "http://localhost:8232/");
    assert_eq!(client.auth().as_str(), "Basic abc");
}

#[test]
fn client_new_formats_connection_info() {
    let client = Client::new("127.0.0.1:18232".to_string(), "user:pass".to_string());
    assert_eq!(client.url().as_str(), "http://127.0.0.1:18232/");
    assert_eq!(client.auth().as_str(), "Basic user:pass");
}

#[test]
fn mismatch_with_result_populated() {
    let raw = "{\"id\":7,\"result\":{\"k\":1}}";
    assert!(matches!(reconcile_text(raw, 0), Err(ClientError::Mismatch)));
}

#[test]
fn negative_id_mismatches() {
    let raw = "{\"id\":-1,\"result\":{\"k\":1}}";
    assert!(matches!(reconcile_text(raw, 0), Err(ClientError::Mismatch)));
}

#[test]
fn string_id_is_malformed() {
    let raw = "{\"id\":\"0\",\"result\":{\"k\":1}}";
    assert!(matches!(reconcile_text(raw, 0), Err(ClientError::Malformed)));
}

#[test]
fn missing_id_is_malformed() {
    let raw = "{\"result\":{\"k\":1}}";
    assert!(matches!(reconcile_text(raw, 0), Err(ClientError::Malformed)));
}

#[test]
fn oversized_error_code_is_malformed() {
    let raw = "{\"id\":0,\"error\":{\"code\":18446744073709551615,\"message\":\"m\"}}";
    assert!(matches!(reconcile_text(raw, 0), Err(ClientError::Malformed)));
}

#[test]
fn large_matching_id_succeeds() {
    let raw = "{\"id\":18446744073709551615,\"result\":{\"k\":1}}";
    assert!(reconcile_text(raw, u64::MAX).is_ok());
}

#[test]
fn clients_do_not_share_identifier_sequences() {
    let mut first = Client::new("a".to_string(), "x".to_string());
    let mut second = Client::new("b".to_string(), "y".to_string());
    let (id0, _) = first.getinfo_begin();
    let (id1, _) = first.getinfo_begin();
    let (other0, _) = second.getinfo_begin();
    assert_eq!(id0, 0);
    assert_eq!(id1, 1);
    assert_eq!(other0, 0);
}
