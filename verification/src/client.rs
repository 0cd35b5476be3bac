//! The `Client`: connection and authentication parameters, the identifier
//! generator, and the generic half of every call.
//!
//! A call splits into a pure beginning and a pure end. [`Client::begin_request`]
//! yields the call's fresh identifier and the serialized request envelope;
//! the embedding program posts the envelope and hands the raw response text
//! to the typed method's finishing function, which reconciles and decodes it.

use vstd::prelude::*;
use vstd::string::*;
use crate::envelope::{request_model, ClientError, ErrorModel, RequestEnvelope};
use crate::json::{arr_model, json_text, JsonValue};

verus! {

/// A `Client` is used to make multiple requests to a specific RPC server.
/// It owns the server URL, the `Authorization` header value, and the
/// identifier generator whose counter no other client shares.
pub struct Client {
    url: String,
    auth: String,
    next_id: u64,
}

impl Client {
    /// The URL the client's requests are posted to.
    pub closed spec fn url_spec(&self) -> Seq<char> {
        self.url@
    }

    /// The `Authorization` header value sent with every request.
    pub closed spec fn auth_spec(&self) -> Seq<char> {
        self.auth@
    }

    /// The identifier the next call will use: issued identifiers are exactly
    /// those below it, so no identifier is ever issued twice.
    pub closed spec fn next_id_spec(&self) -> u64 {
        self.next_id
    }

    /// Construct a new `Client` with connection & authentication info.
    /// - `hostport` is a host/ip with an optional `:PORT` appended.
    /// - `authcookie` is a pre-formatted credential string, carried verbatim.
    pub fn new(hostport: String, authcookie: String) -> (c: Client)
        ensures
            c.url_spec() == "http://"@ + hostport@ + "/"@,
            c.auth_spec() == "Basic "@ + authcookie@,
            c.next_id_spec() == 0,
    {
        let mut url = "http://".to_owned();
        url.append(hostport.as_str());
        url.append("/");
        let mut auth = "Basic ".to_owned();
        auth.append(authcookie.as_str());
        Client { url, auth, next_id: 0 }
    }

    /// Construct a `Client` from the values of the environment variables
    /// `ZCASHRPC_HOST` and `ZCASHRPC_AUTH`, as read and handed in by the
    /// embedding program. A missing variable is an `Environment` error
    /// naming that variable, the host checked first.
    pub fn from_env(host: Option<String>, authcookie: Option<String>) -> (r: Result<
        Client,
        ClientError,
    >)
        ensures
            (match r {
                Ok(c) => {
                    &&& host is Some
                    &&& authcookie is Some
                    &&& c.url_spec() == "http://"@ + host.unwrap()@ + "/"@
                    &&& c.auth_spec() == "Basic "@ + authcookie.unwrap()@
                    &&& c.next_id_spec() == 0
                },
                Err(e) => {
                    &&& (host is None || authcookie is None)
                    &&& e@ == (if host is None {
                        ErrorModel::Environment("ZCASHRPC_HOST"@)
                    } else {
                        ErrorModel::Environment("ZCASHRPC_AUTH"@)
                    })
                },
            }),
    {
        match host {
            None => Err(ClientError::Environment { variable: "ZCASHRPC_HOST".to_owned() }),
            Some(h) => match authcookie {
                None => Err(ClientError::Environment { variable: "ZCASHRPC_AUTH".to_owned() }),
                Some(a) => Ok(Client::new(h, a)),
            },
        }
    }

    /// Obtains this call's fresh identifier and the serialized request
    /// envelope to post for it. The identifier generator advances by exactly
    /// one, whatever becomes of the call; an exhausted generator is a fatal
    /// condition the caller rules out beforehand, not a normal error.
    pub fn begin_request(&mut self, method: &str, params: Vec<JsonValue>) -> (r: (u64, String))
        requires
            old(self).next_id_spec() < u64::MAX,
        ensures
            r.0 == old(self).next_id_spec(),
            final(self).next_id_spec() == old(self).next_id_spec() + 1,
            final(self).url_spec() == old(self).url_spec(),
            final(self).auth_spec() == old(self).auth_spec(),
            r.1@ == json_text(
                request_model(r.0, method@, arr_model(params, params.len() as int)),
            ),
    {
        let id = self.next_id;
        self.next_id = self.next_id + 1;
        let body = RequestEnvelope::wrap(id, method, params);
        (id, body)
    }

    /// The URL the client's requests are posted to.
    pub fn url(&self) -> (r: &String)
        ensures
            r@ == self.url_spec(),
    {
        &self.url
    }

    /// The `Authorization` header value sent with every request.
    pub fn auth(&self) -> (r: &String)
        ensures
            r@ == self.auth_spec(),
    {
        &self.auth
    }

    /// The identifier the next call will use. A caller outside the crate
    /// tests it against `u64::MAX` before beginning a request: an exhausted
    /// generator is fatal for this client.
    pub fn next_id(&self) -> (r: u64)
        ensures
            r == self.next_id_spec(),
    {
        self.next_id
    }
}

/// The identifiers a client whose counter stands at `start` issues over its
/// next `n` calls, in order.
pub open spec fn issued_ids(start: u64, n: nat) -> Seq<u64> {
    Seq::new(n, |i: int| (start + i) as u64)
}

/// Law: the identifiers of `n` successive calls against one client are
/// strictly increasing, and therefore pairwise distinct. Each call returns
/// the counter's value and advances it by one, so the `k`-th call after a
/// state with counter `start` uses `start + k`.
pub proof fn lemma_identifier_uniqueness(start: u64, n: nat)
    requires
        start + n <= u64::MAX + 1,
    ensures
        issued_ids(start, n).len() == n,
        forall|i: int, j: int|
            0 <= i < j < n ==> issued_ids(start, n)[i] < issued_ids(start, n)[j],
        forall|i: int, j: int|
            0 <= i < j < n ==> issued_ids(start, n)[i] != issued_ids(start, n)[j],
{
}

} // verus!
