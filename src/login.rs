//! Initial acquisition of a credential record.
use vstd::prelude::*;
use crate::credentials::{
    credential_json, credential_record, encode_credentials, login_json, CredentialView,
    LoginRequest, LoginResponse, Meta,
};
use crate::error::{Error, ErrorView};
use crate::http::{
    endpoint, endpoint_url, is_success, pairs_view, Body, BodyView, HttpRequest, Method, Reply,
    ReplyView, RequestView, UNAUTHORIZED,
};

verus! {

/// The lowercase hex SHA-256 digest of a text's UTF-8 bytes.
pub uninterp spec fn sha256_hex(s: Seq<char>) -> Seq<char>;

pub open spec fn is_lower_hex(c: char) -> bool {
    ('0' <= c <= '9') || ('a' <= c <= 'f')
}

/// Relies on `sha256::digest` on a `str`: `hex::encode` of the 32-byte
/// digest of the text's bytes, so 64 lowercase hex digits that depend on the
/// text alone.
#[verifier::external_body]
fn digest_hex(s: &str) -> (r: String)
    ensures
        r@ == sha256_hex(s@),
        r@.len() == 64,
        forall|i: int| 0 <= i < r@.len() ==> is_lower_hex(#[trigger] r@[i]),
{
    sha256::digest(s)
}

impl LoginRequest {
    /// The login body for a secret: only its digest goes over the wire.
    pub fn for_secret(secret: &str) -> (r: LoginRequest)
        ensures
            r.key@ == sha256_hex(secret@),
            r.key@.len() == 64,
            forall|i: int| 0 <= i < r.key@.len() ==> is_lower_hex(#[trigger] r.key@[i]),
    {
        LoginRequest { key: digest_hex(secret) }
    }
}

pub open spec fn login_url(server: Seq<char>) -> Seq<char> {
    endpoint_url(server, "/auth/login"@)
}

/// The unauthenticated POST of a login body to the server's login endpoint.
pub fn login_request_for(server_ip: &str, req: &LoginRequest) -> (r: Result<HttpRequest, Error>)
    ensures
        r matches Ok(q) && q@ == (RequestView {
            method: Method::Post,
            url: login_url(server_ip@),
            authorization: None,
            query: Seq::empty(),
            body: BodyView::Json(login_json(req.key@)),
        }),
{
    let body = req.encode()?;
    let q = HttpRequest {
        method: Method::Post,
        url: endpoint(server_ip, "/auth/login"),
        authorization: None,
        query: Vec::new(),
        body: Body::Json(body),
    };
    assert(pairs_view(q.query@) =~= Seq::empty());
    Ok(q)
}

/// The login request for a plaintext secret, which is hashed first.
pub fn login_request(server_ip: &str, secret: &str) -> (r: Result<HttpRequest, Error>)
    ensures
        r matches Ok(q) && q@ == (RequestView {
            method: Method::Post,
            url: login_url(server_ip@),
            authorization: None,
            query: Seq::empty(),
            body: BodyView::Json(login_json(sha256_hex(secret@))),
        }),
{
    let req = LoginRequest::for_secret(secret);
    login_request_for(server_ip, &req)
}

/// What the login answer means: on a 2xx, the body to decode as a token pair;
/// a rejection is `Server("Unauthorized")`, any other status a local fault
/// carrying the body, and a transport failure a remote fault.
pub open spec fn login_answer(r: ReplyView) -> Result<Seq<char>, ErrorView> {
    match r {
        ReplyView::Failed(m) => Err(ErrorView::Server(m)),
        ReplyView::Received { status, body } => {
            if is_success(status) {
                Ok(body)
            } else if status == UNAUTHORIZED {
                Err(ErrorView::Server("Unauthorized"@))
            } else {
                Err(ErrorView::Client(body))
            }
        },
    }
}

pub fn login_reply(reply: Reply) -> (r: Result<String, Error>)
    ensures
        match login_answer(reply@) {
            Ok(b) => r matches Ok(s) && s@ == b,
            Err(e) => r matches Err(x) && x@ == e,
        },
{
    match reply {
        Reply::Failed(m) => Err(Error::Server(m)),
        Reply::Received { status, body } => {
            if 200 <= status && status <= 299 {
                Ok(body)
            } else if status == UNAUTHORIZED {
                Err(Error::unauthorized())
            } else {
                Err(Error::Client(body))
            }
        },
    }
}

/// The record that a login produces, and the text of its credential file.
pub fn finish_login(username: String, server_ip: String, tokens: Result<LoginResponse, String>) -> (r:
    Result<(Meta, String), Error>)
    ensures
        match tokens {
            Ok(t) => r matches Ok((m, text)) && m@ == (CredentialView {
                username: username@,
                server_ip: server_ip@,
                access_token: t@.access_token,
                refresh_token: t@.refresh_token,
            }) && text@ == credential_json(m@),
            Err(d) => r matches Err(e) && e@ == ErrorView::Client(d@),
        },
{
    match tokens {
        Ok(t) => {
            let m = credential_record(username, server_ip, t);
            let text = encode_credentials(&m)?;
            Ok((m, text))
        },
        Err(d) => Err(Error::Client(d)),
    }
}

} // verus!
