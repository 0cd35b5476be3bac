//! A typed client core for a JSON-RPC service: request envelopes, response
//! reconciliation, and a per-method typed surface, with verified contracts.
//!
//! The crate is organised as:
//! - [`json`]: the crate's own model of JSON data, a verified renderer for
//!   request bodies, and the parsing boundary to `serde_json`.
//! - [`envelope`]: the request and response envelope shapes and the
//!   reconciliation of a response against an expected request identifier.
//! - [`client`]: the `Client` with its identifier generator and the generic
//!   call pipeline.
//! - [`methods`]: the typed response schemas of the declared RPC methods.

pub mod client;
pub mod envelope;
pub mod json;
pub mod methods;

pub use json::{JsonModel, JsonValue};
pub use envelope::{ClientError, ErrorModel, RequestEnvelope, ResponseEnvelope, RpcErrorInfo};
pub use client::Client;
pub use methods::{
    getblockchaininfo_finish, getinfo_finish, Consensus, GetBlockChainInfoResponse,
    GetInfoResponse, NetworkUpgradeDesc, Softfork, SoftforkMajorityDesc, ValuePool, ZecAmount,
};
