//! The REST transport's verified side: request planning (URL, headers,
//! signing) and response classification. The caller performs the network
//! call and feeds status and body back in.

use vstd::prelude::*;
use crate::errors::BinanceError;
use crate::jsonval::{
    get_member_i64, get_member_string, json_parsed_of, parse_json, spec_member_i64,
    spec_member_str,
};
use crate::signer::{sign_query, spec_signed_query};
use crate::util::{build_signed_request_with_timestamp, pair_views, spec_canonical_query};

verus! {

/// The verb of a REST call.
#[derive(Debug, Clone, Copy, PartialEq, Eq, Structural)]
pub enum HttpMethod {
    Get,
    Post,
    Put,
    Delete,
}

/// One REST client: credentials and the host every path is resolved
/// against. Cheap to clone and share; it holds no connection state.
#[derive(Debug, Clone)]
pub struct Client {
    pub api_key: Option<String>,
    pub secret_key: Option<String>,
    pub host: String,
    pub timeout: u64,
}

/// Everything a caller needs to perform one REST call: the verb, the full
/// URL, and the API key to attach as a header when one is configured.
#[derive(Debug)]
pub struct RequestPlan {
    pub method: HttpMethod,
    pub url: String,
    pub api_key_header: Option<String>,
}

/// The URL of an unsigned call: the query is appended after `?` only when
/// it is present and non-empty.
pub open spec fn spec_plain_url(host: Seq<char>, path: Seq<char>, query: Option<Seq<char>>) -> Seq<
    char,
> {
    match query {
        Some(q) => if q.len() > 0 {
            host + path + seq!['?'] + q
        } else {
            host + path
        },
        None => host + path,
    }
}

/// The full URL of a signed call: host, path, and the signed canonical
/// query.
pub open spec fn spec_signed_url(
    client: Client,
    path: Seq<char>,
    params: Seq<(Seq<char>, Seq<char>)>,
    recv_window: u64,
    timestamp: u64,
) -> Seq<char> {
    client.host@ + path + seq!['?'] + spec_signed_query(
        client.secret_key->Some_0@,
        spec_canonical_query(params, recv_window, timestamp),
    )
}

impl Client {
    /// A client for the given credentials and host.
    pub fn new(
        api_key: Option<String>,
        secret_key: Option<String>,
        host: String,
        timeout: u64,
    ) -> (r: Client)
        ensures
            r.api_key == api_key,
            r.secret_key == secret_key,
            r.host == host,
            r.timeout == timeout,
    {
        Client { api_key, secret_key, host, timeout }
    }

    /// Plans an unsigned call: the URL is host, path and optional query, and
    /// the API key header is attached whenever a key is configured, signed
    /// or not.
    pub fn plan(&self, method: HttpMethod, path: &str, query: Option<&str>) -> (r: RequestPlan)
        ensures
            r.method == method,
            r.api_key_header == self.api_key,
            r.url@ == spec_plain_url(
                self.host@,
                path@,
                match query {
                    Some(q) => Some(q@),
                    None => None,
                },
            ),
    {
        let mut url = self.host.clone();
        url.append(path);
        match query {
            Some(q) => {
                if !q.is_empty() {
                    crate::util::string_push(&mut url, '?');
                    url.append(q);
                }
            },
            None => {},
        }
        RequestPlan { method, url, api_key_header: self.api_key.clone() }
    }

    /// Plans a signed call for the given timestamp. Without a secret key the
    /// plan fails with `MissingCredentials` before any canonical string or
    /// signature is formed; with one, the URL carries the canonical query
    /// with its signature appended.
    pub fn plan_signed(
        &self,
        method: HttpMethod,
        path: &str,
        parameters: &Vec<(String, String)>,
        recv_window: u64,
        timestamp: u64,
    ) -> (r: Result<RequestPlan, BinanceError>)
        ensures
            (self.secret_key is None) <==> (r == Err::<RequestPlan, BinanceError>(
                BinanceError::MissingCredentials,
            )),
            (self.secret_key is Some) <==> r is Ok,
            r is Ok ==> {
                let plan = r->Ok_0;
                &&& plan.method == method
                &&& plan.api_key_header == self.api_key
                &&& plan.url@ == self.host@ + path@ + seq!['?'] + spec_signed_query(
                    self.secret_key->Some_0@,
                    spec_canonical_query(pair_views(parameters@), recv_window, timestamp),
                )
            },
    {
        let secret = match &self.secret_key {
            Some(s) => s,
            None => return Err(BinanceError::MissingCredentials),
        };
        let canonical = build_signed_request_with_timestamp(parameters, recv_window, timestamp);
        let signature = sign_query(secret.as_str(), canonical.as_str());
        let mut url = self.host.clone();
        url.append(path);
        crate::util::string_push(&mut url, '?');
        url.append(canonical.as_str());
        url.append("&signature=");
        url.append(signature.as_str());
        Ok(RequestPlan { method, url, api_key_header: self.api_key.clone() })
    }

    /// Plans a signed call for a timestamp read from the wall clock.
    pub fn plan_signed_now(
        &self,
        method: HttpMethod,
        path: &str,
        parameters: &Vec<(String, String)>,
        recv_window: u64,
    ) -> (r: Result<RequestPlan, BinanceError>)
        ensures
            (self.secret_key is None) <==> (r == Err::<RequestPlan, BinanceError>(
                BinanceError::MissingCredentials,
            )),
            (self.secret_key is Some) <==> r is Ok,
            r is Ok ==> {
                let plan = r->Ok_0;
                &&& plan.method == method
                &&& plan.api_key_header == self.api_key
                &&& exists|ts: u64|
                    plan.url@ == self.host@ + path@ + seq!['?'] + spec_signed_query(
                        self.secret_key->Some_0@,
                        spec_canonical_query(pair_views(parameters@), recv_window, ts),
                    )
            },
    {
        let ts = crate::util::get_timestamp();
        let r = self.plan_signed(method, path, parameters, recv_window, ts);
        proof {
            if self.secret_key is Some {
                let plan = r->Ok_0;
                assert(plan.url@ == self.host@ + path@ + seq!['?'] + spec_signed_query(
                    self.secret_key->Some_0@,
                    spec_canonical_query(pair_views(parameters@), recv_window, ts),
                ));
            }
        }
        r
    }
}

/// The structured `{code, msg}` content of an error body: present exactly
/// when the text parses as JSON and carries an integer `code` and a string
/// `msg`.
pub open spec fn spec_error_body(text: Seq<char>) -> Option<(i64, Seq<char>)> {
    match json_parsed_of(text) {
        None => None,
        Some(v) => match spec_member_i64(v, "code"@) {
            None => None,
            Some(code) => match spec_member_str(v, "msg"@) {
                None => None,
                Some(msg) => Some((code, msg)),
            },
        },
    }
}

/// Reads a `{code, msg}` error body, exactly when the text is one.
pub fn parse_error_body(text: &str) -> (r: Option<(i64, String)>)
    ensures
        (r is Some) <==> spec_error_body(text@) is Some,
        r is Some ==> r->Some_0.0 == spec_error_body(text@)->Some_0.0 && r->Some_0.1@
            == spec_error_body(text@)->Some_0.1,
{
    let v = match parse_json(text) {
        Some(v) => v,
        None => return None,
    };
    let code = match get_member_i64(&v, "code") {
        Some(n) => n,
        None => return None,
    };
    let msg = match get_member_string(&v, "msg") {
        Some(s) => s,
        None => return None,
    };
    Some((code, msg))
}

/// Whether a status code counts as success.
pub open spec fn spec_is_success(status: u16) -> bool {
    200 <= status < 300
}

/// Classifies one finished call: a success status hands the body through
/// untouched; any other status is an error — a body that carries the
/// structured `{code, msg}` shape becomes `Api` with the server's code as
/// the authoritative discriminant, and a body of any other shape becomes a
/// decode error carrying only its size.
pub fn check_response(status: u16, body: String) -> (r: Result<String, BinanceError>)
    ensures
        spec_is_success(status) <==> r is Ok,
        r is Ok ==> r->Ok_0 == body,
        !spec_is_success(status) && spec_error_body(body@) is Some ==> (r->Err_0 matches
            BinanceError::Api { code, msg } && code == spec_error_body(body@)->Some_0.0 && msg@
            == spec_error_body(body@)->Some_0.1),
        !spec_is_success(status) && spec_error_body(body@) is None ==> r->Err_0
            == (BinanceError::Decode {
            payload_len: vstd::utf8::encode_utf8(body@).len() as usize,
        }),
{
    if 200 <= status && status < 300 {
        Ok(body)
    } else {
        let payload_len = body.as_str().len();
        match parse_error_body(body.as_str()) {
            Some((code, msg)) => Err(BinanceError::Api { code, msg }),
            None => Err(BinanceError::Decode { payload_len }),
        }
    }
}

} // verus!
