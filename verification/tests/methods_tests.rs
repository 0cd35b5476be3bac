//! Tests of the typed method surface: the response schemas and their
//! decoders.

use zcash_rcli::{
    getblockchaininfo_finish, getinfo_finish, Client, ClientError, Consensus, JsonValue,
    NetworkUpgradeDesc, ValuePool,
};
use zcash_rcli::json::parse_json_text;

fn full_getinfo_result() -> String {
    "{\"balance\":0.05,\"blocks\":12345,\"connections\":8,\"difficulty\":1234.5,\"errors\":\"\",\"keypoololdest\":1,\"keypoolsize\":100,\"paytxfee\":0.0,\"protocolversion\":170013,\"proxy\":\"\",\"relayfee\":0.000001,\"testnet\":true,\"timeoffset\":0,\"version\":4030050,\"walletversion\":60000}"
    .to_string()
}

#[test]
fn getinfo_end_to_end() {
    let mut client = Client::new("localhost:8232".to_string(), "cookie".to_string());
    let (id, _body) = client.getinfo_begin();
    assert_eq!(id, 0);
    let raw = format!("{{\"id\":0,\"result\":{}}}", full_getinfo_result());
    let resp = getinfo_finish(id, &raw).expect("a full result decodes");
    assert_eq!(resp.blocks, 12345);
    assert_eq!(resp.testnet, true);
    assert_eq!(resp.connections, 8);
    assert_eq!(resp.protocolversion, 170013);
    assert_eq!(resp.errors, "");
    match &resp.balance.0 {
        JsonValue::NumText(t) => assert_eq!(t, "0.05"),
        _ => panic!("the balance keeps its wire shape"),
    }
    match &resp.difficulty {
        JsonValue::NumText(t) => assert_eq!(t, "1234.5"),
        _ => panic!("the difficulty keeps its wire shape"),
    }
}

#[test]
fn getinfo_schema_mismatch_yields_decode() {
    let raw = "{\"id\":0,\"result\":{\"unexpectedField\":1}}";
    assert!(matches!(getinfo_finish(0, raw), Err(ClientError::Decode)));
}

#[test]
fn getinfo_missing_one_field_yields_decode() {
    // Everything but `testnet` is present.
    let raw = "{\"id\":0,\"result\":{\"balance\":0.05,\"blocks\":12345,\"connections\":8,\"difficulty\":1234.5,\"errors\":\"\",\"keypoololdest\":1,\"keypoolsize\":100,\"paytxfee\":0.0,\"protocolversion\":170013,\"proxy\":\"\",\"relayfee\":0.000001,\"timeoffset\":0,\"version\":4030050,\"walletversion\":60000}}";
    assert!(matches!(getinfo_finish(0, raw), Err(ClientError::Decode)));
}

#[test]
fn getinfo_mistyped_field_yields_decode() {
    let raw = format!(
        "{{\"id\":0,\"result\":{}}}",
        full_getinfo_result().replace("\"blocks\":12345", "\"blocks\":\"12345\"")
    );
    assert!(matches!(getinfo_finish(0, &raw), Err(ClientError::Decode)));
}

#[test]
fn consensus_decoder() {
    let v = parse_json_text("{\"chaintip\":\"76b809bb\",\"nextblock\":\"76b809bb\"}").unwrap();
    let c = Consensus::from_json(&v).expect("a complete consensus object decodes");
    assert_eq!(c.chaintip, "76b809bb");
    assert_eq!(c.nextblock, "76b809bb");
    let bad = parse_json_text("{\"chaintip\":\"76b809bb\"}").unwrap();
    assert!(Consensus::from_json(&bad).is_none());
}

#[test]
fn network_upgrade_decoder() {
    let v = parse_json_text("{\"name\":\"Overwinter\",\"activationheight\":347500,\"status\":\"active\",\"info\":\"See https://z.cash/upgrade/overwinter.html\"}")
    .unwrap();
    let d = NetworkUpgradeDesc::from_json(&v).expect("a complete upgrade decodes");
    assert_eq!(d.name, "Overwinter");
    assert_eq!(d.activationheight, 347500);
    assert_eq!(d.status, "active");
    let bad = parse_json_text("{\"name\":\"X\",\"activationheight\":true,\"status\":\"s\",\"info\":\"i\"}")
        .unwrap();
    assert!(NetworkUpgradeDesc::from_json(&bad).is_none());
}

#[test]
fn value_pool_decoder() {
    let v = parse_json_text("{\"id\":\"sprout\",\"monitored\":true,\"chainValue\":123.456,\"chainValueZat\":12345600000}")
    .unwrap();
    let p = ValuePool::from_json(&v).expect("a pool with optional fields absent decodes");
    assert_eq!(p.id, "sprout");
    assert_eq!(p.monitored, true);
    assert_eq!(p.chainValueZat, Some(12345600000));
    assert!(p.valueDelta.is_none());
    assert!(p.valueDeltaZat.is_none());
    match &p.chainValue {
        Some(a) => match &a.0 {
            JsonValue::NumText(t) => assert_eq!(t, "123.456"),
            _ => panic!("the amount keeps its wire shape"),
        },
        None => panic!("chainValue is present"),
    }
}

fn full_blockchaininfo_result() -> String {
    "{\"chain\":\"main\",\"blocks\":1000000,\"headers\":1000000,\"bestblockhash\":\"00000000abcd\",\"difficulty\":1234.5,\"verificationprogress\":0.999,\"chainwork\":\"0000013c\",\"pruned\":false,\"size_on_disk\":28968245638,\"commitments\":176868,\"valuePools\":[{\"id\":\"sprout\",\"monitored\":true,\"chainValue\":0.0,\"chainValueZat\":0}],\"softforks\":[{\"id\":\"bip34\",\"version\":2,\"enforce\":{\"status\":true,\"found\":4000,\"required\":750,\"window\":4000},\"reject\":{\"status\":true,\"found\":4000,\"required\":950,\"window\":4000}}],\"upgrades\":{\"5ba81b19\":{\"name\":\"Overwinter\",\"activationheight\":347500,\"status\":\"active\",\"info\":\"info\"}},\"consensus\":{\"chaintip\":\"76b809bb\",\"nextblock\":\"76b809bb\"}}"
    .to_string()
}

#[test]
fn getblockchaininfo_end_to_end() {
    let mut client = Client::new("localhost:8232".to_string(), "cookie".to_string());
    let (id, body) = client.getblockchaininfo_begin();
    assert!(body.contains("\"method\":\"getblockchaininfo\""));
    let raw = format!("{{\"id\":{},\"result\":{}}}", id, full_blockchaininfo_result());
    let resp = getblockchaininfo_finish(id, &raw).expect("a full result decodes");
    assert_eq!(resp.chain, "main");
    assert_eq!(resp.blocks, 1000000);
    assert_eq!(resp.pruned, false);
    assert_eq!(resp.valuePools.len(), 1);
    assert_eq!(resp.valuePools[0].id, "sprout");
    assert_eq!(resp.softforks.len(), 1);
    assert_eq!(resp.softforks[0].version, 2);
    assert_eq!(resp.softforks[0].enforce.found, 4000);
    assert!(matches!(resp.softforks[0].enforce.window, JsonValue::UInt(4000)));
    assert_eq!(resp.upgrades.len(), 1);
    assert_eq!(resp.upgrades[0].0, "5ba81b19");
    assert_eq!(resp.upgrades[0].1.name, "Overwinter");
    assert_eq!(resp.consensus.chaintip, "76b809bb");
    assert!(resp.pruneheight.is_none());
    assert!(resp.fullyNotified.is_none());
}

#[test]
fn getblockchaininfo_rpc_error() {
    let raw = "{\"id\":0,\"error\":{\"code\":-28,\"message\":\"Loading block index...\"}}";
    match getblockchaininfo_finish(0, raw) {
        Err(ClientError::Rpc { code, message }) => {
            assert_eq!(code, -28);
            assert_eq!(message, "Loading block index...");
        },
        _ => panic!("expected the server error verbatim"),
    }
}

#[test]
fn getblockchaininfo_bad_pool_yields_decode() {
    let raw = format!(
        "{{\"id\":0,\"result\":{}}}",
        full_blockchaininfo_result().replace("\"monitored\":true", "\"monitored\":1")
    );
    assert!(matches!(getblockchaininfo_finish(0, &raw), Err(ClientError::Decode)));
}
