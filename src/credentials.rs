use vstd::prelude::*;
use crate::error::{Error, ErrorView};
use crate::json::{json_string_literal, to_json_string};

verus! {

/// The single local credential record.
#[derive(Debug)]
pub struct Meta {
    /// User-facing label, not used for authentication.
    pub username: String,
    /// `host[:port]` of the server, without a scheme.
    pub server_ip: String,
    pub access_token: String,
    pub refresh_token: String,
}

pub struct CredentialView {
    pub username: Seq<char>,
    pub server_ip: Seq<char>,
    pub access_token: Seq<char>,
    pub refresh_token: Seq<char>,
}

impl View for Meta {
    type V = CredentialView;

    open spec fn view(&self) -> CredentialView {
        CredentialView {
            username: self.username@,
            server_ip: self.server_ip@,
            access_token: self.access_token@,
            refresh_token: self.refresh_token@,
        }
    }
}

impl Meta {
    pub fn duplicate(&self) -> (r: Meta)
        ensures
            r@ == self@,
    {
        Meta {
            username: self.username.clone(),
            server_ip: self.server_ip.clone(),
            access_token: self.access_token.clone(),
            refresh_token: self.refresh_token.clone(),
        }
    }
}

/// The body of a login request: the hex SHA-256 digest of the secret.
#[derive(Debug)]
pub struct LoginRequest {
    pub key: String,
}

/// A fresh token pair, as the login and refresh endpoints return it.
#[derive(Debug)]
pub struct LoginResponse {
    pub access_token: String,
    pub refresh_token: String,
}

pub struct TokensView {
    pub access_token: Seq<char>,
    pub refresh_token: Seq<char>,
}

impl View for LoginResponse {
    type V = TokensView;

    open spec fn view(&self) -> TokensView {
        TokensView { access_token: self.access_token@, refresh_token: self.refresh_token@ }
    }
}

/// The record with the same identity and server and a new token pair.
pub open spec fn with_tokens(c: CredentialView, t: TokensView) -> CredentialView {
    CredentialView {
        username: c.username,
        server_ip: c.server_ip,
        access_token: t.access_token,
        refresh_token: t.refresh_token,
    }
}

/// Builds the record from an identity, a server address and a token pair.
pub fn credential_record(username: String, server_ip: String, tokens: LoginResponse) -> (m: Meta)
    ensures
        m@ == (CredentialView {
            username: username@,
            server_ip: server_ip@,
            access_token: tokens@.access_token,
            refresh_token: tokens@.refresh_token,
        }),
{
    Meta {
        username,
        server_ip,
        access_token: tokens.access_token,
        refresh_token: tokens.refresh_token,
    }
}

/// What reading the credential file gave.
#[derive(Debug)]
pub enum StoredCredentials {
    Found(Meta),
    /// There is no credential file; the detail says why.
    NotFound(String),
    /// The file could not be read or decoded; the detail says why.
    Corrupt(String),
}

pub enum StoredView {
    Found(CredentialView),
    NotFound(Seq<char>),
    Corrupt(Seq<char>),
}

impl View for StoredCredentials {
    type V = StoredView;

    open spec fn view(&self) -> StoredView {
        match self {
            StoredCredentials::Found(m) => StoredView::Found(m@),
            StoredCredentials::NotFound(d) => StoredView::NotFound(d@),
            StoredCredentials::Corrupt(d) => StoredView::Corrupt(d@),
        }
    }
}

/// The record, or a local fault: no request can be authenticated without one.
pub fn require_credentials(stored: StoredCredentials) -> (r: Result<Meta, Error>)
    ensures
        match stored@ {
            StoredView::Found(c) => r matches Ok(m) && m@ == c,
            StoredView::NotFound(d) => r matches Err(e) && e@ == ErrorView::Client(d),
            StoredView::Corrupt(d) => r matches Err(e) && e@ == ErrorView::Client(d),
        },
{
    match stored {
        StoredCredentials::Found(m) => Ok(m),
        StoredCredentials::NotFound(d) => Err(Error::Client(d)),
        StoredCredentials::Corrupt(d) => Err(Error::Client(d)),
    }
}

/// Appends the JSON string literal for `s` to `out`; an encoding failure is a
/// local fault.
pub fn push_json_string(out: &mut String, s: &str) -> (r: Result<(), Error>)
    ensures
        r is Ok,
        final(out)@ == old(out)@ + json_string_literal(s@),
{
    match to_json_string(s) {
        Ok(q) => {
            out.append(q.as_str());
            Ok(())
        },
        Err(m) => Err(Error::Client(m)),
    }
}

/// The credential file: one JSON object with the four fields in order.
pub open spec fn credential_json(c: CredentialView) -> Seq<char> {
    "{\"username\":"@ + json_string_literal(c.username) + ",\"server_ip\":"@
        + json_string_literal(c.server_ip) + ",\"access_token\":"@
        + json_string_literal(c.access_token) + ",\"refresh_token\":"@
        + json_string_literal(c.refresh_token) + "}"@
}

/// The text to write to the credential file; a failure to encode is a local
/// fault.
pub fn encode_credentials(m: &Meta) -> (r: Result<String, Error>)
    ensures
        r matches Ok(t) && t@ == credential_json(m@),
{
    let mut out = String::from_str("{\"username\":");
    push_json_string(&mut out, m.username.as_str())?;
    out.append(",\"server_ip\":");
    push_json_string(&mut out, m.server_ip.as_str())?;
    out.append(",\"access_token\":");
    push_json_string(&mut out, m.access_token.as_str())?;
    out.append(",\"refresh_token\":");
    push_json_string(&mut out, m.refresh_token.as_str())?;
    out.append("}");
    Ok(out)
}

/// The body of a login request for a key.
pub open spec fn login_json(key: Seq<char>) -> Seq<char> {
    "{\"key\":"@ + json_string_literal(key) + "}"@
}

impl LoginRequest {
    pub fn encode(&self) -> (r: Result<String, Error>)
        ensures
            r matches Ok(t) && t@ == login_json(self.key@),
    {
        let mut out = String::from_str("{\"key\":");
        push_json_string(&mut out, self.key.as_str())?;
        out.append("}");
        Ok(out)
    }
}

} // verus!
