use vstd::prelude::*;
use crate::credentials::{
    require_credentials, with_tokens, CredentialView, LoginResponse, Meta, StoredCredentials,
    StoredView, TokensView,
};
use crate::error::{Error, ErrorView};
use crate::http::{
    bearer, bearer_header, classify, duplicate_pairs, endpoint, endpoint_url, outcome_of,
    pairs_view, Body, BodyView, HttpRequest, Method, OutcomeView, Reply, ReplyView, RequestOutcome,
    RequestView,
};

verus! {

/// One logical call as its caller asks for it.
#[derive(Debug)]
pub struct Target {
    pub method: Method,
    /// Path on the server, starting with `/`.
    pub path: String,
    pub query: Vec<(String, String)>,
    pub payload: Body,
}

pub struct TargetView {
    pub method: Method,
    pub path: Seq<char>,
    pub query: Seq<(Seq<char>, Seq<char>)>,
    pub payload: BodyView,
}

impl View for Target {
    type V = TargetView;

    open spec fn view(&self) -> TargetView {
        TargetView {
            method: self.method,
            path: self.path@,
            query: pairs_view(self.query@),
            payload: self.payload@,
        }
    }
}

impl Target {
    /// A GET of `path` with these query pairs.
    pub fn get(path: String, query: Vec<(String, String)>) -> (t: Target)
        ensures
            t@ == (TargetView {
                method: Method::Get,
                path: path@,
                query: pairs_view(query@),
                payload: BodyView::Empty,
            }),
    {
        Target { method: Method::Get, path, query, payload: Body::Empty }
    }

    /// A POST of the JSON text `json` to `path`.
    pub fn post(path: String, json: String) -> (t: Target)
        ensures
            t@ == (TargetView {
                method: Method::Post,
                path: path@,
                query: Seq::empty(),
                payload: BodyView::Json(json@),
            }),
    {
        let t = Target { method: Method::Post, path, query: Vec::new(), payload: Body::Json(json) };
        assert(pairs_view(t.query@) =~= Seq::empty());
        t
    }
}

/// The request for a call, authenticated with the record's access token.
pub open spec fn call_request(t: TargetView, c: CredentialView) -> RequestView {
    RequestView {
        method: t.method,
        url: endpoint_url(c.server_ip, t.path),
        authorization: Some(bearer(c.access_token)),
        query: t.query,
        body: t.payload,
    }
}

/// The request that exchanges the record's refresh token for a new pair;
/// the token itself is the body and no header authenticates it.
pub open spec fn refresh_request(c: CredentialView) -> RequestView {
    RequestView {
        method: Method::Post,
        url: endpoint_url(c.server_ip, "/auth/refresh"@),
        authorization: None,
        query: Seq::empty(),
        body: BodyView::Text(c.refresh_token),
    }
}

fn build_call_request(t: &Target, c: &Meta) -> (r: HttpRequest)
    ensures
        r@ == call_request(t@, c@),
{
    HttpRequest {
        method: t.method,
        url: endpoint(c.server_ip.as_str(), t.path.as_str()),
        authorization: Some(bearer_header(c.access_token.as_str())),
        query: duplicate_pairs(&t.query),
        body: t.payload.duplicate(),
    }
}

fn build_refresh_request(c: &Meta) -> (r: HttpRequest)
    ensures
        r@ == refresh_request(c@),
{
    let r = HttpRequest {
        method: Method::Post,
        url: endpoint(c.server_ip.as_str(), "/auth/refresh"),
        authorization: None,
        query: Vec::new(),
        body: Body::Text(c.refresh_token.clone()),
    };
    assert(pairs_view(r.query@) =~= Seq::empty());
    r
}

/// Where a call stands: the original request is out (`Initial`), the refresh
/// request is out (`Refreshing`), its body awaits decoding (`Decoding`), the
/// new record awaits storing (`Storing`), the replayed request is out
/// (`Replaying`), or the call is over (`Done`).
#[derive(Clone, Copy, Debug, PartialEq, Eq, Structural)]
pub enum Phase {
    Initial,
    Refreshing,
    Decoding,
    Storing,
    Replaying,
    Done,
}

/// What the transport, the decoder or the credential store hands back.
#[derive(Debug)]
pub enum Event {
    /// The answer to the last request sent.
    Response(Reply),
    /// The refresh answer's body decoded as a token pair, or why it could not be.
    Tokens(Result<LoginResponse, String>),
    /// Whether the new record was written.
    Stored(Result<(), String>),
}

pub enum EventView {
    Response(ReplyView),
    Tokens(Result<TokensView, Seq<char>>),
    Stored(Result<(), Seq<char>>),
}

impl View for Event {
    type V = EventView;

    open spec fn view(&self) -> EventView {
        match self {
            Event::Response(r) => EventView::Response(r@),
            Event::Tokens(Ok(t)) => EventView::Tokens(Ok(t@)),
            Event::Tokens(Err(m)) => EventView::Tokens(Err(m@)),
            Event::Stored(Ok(())) => EventView::Stored(Ok(())),
            Event::Stored(Err(m)) => EventView::Stored(Err(m@)),
        }
    }
}

/// What the owner of the transport and the credential store must do next.
#[derive(Debug)]
pub enum Action {
    /// Send this request and hand back its `Response`.
    Send(HttpRequest),
    /// Decode this body as a token pair and hand back `Tokens`.
    DecodeTokens(String),
    /// Overwrite the credential file with this record and hand back `Stored`.
    Store(Meta),
    /// The call is over, with this result (the success body, for a GET, is
    /// the JSON text of the caller's expected type).
    Finish(Result<String, Error>),
}

pub enum ActionView {
    Send(RequestView),
    DecodeTokens(Seq<char>),
    Store(CredentialView),
    Finish(Result<Seq<char>, ErrorView>),
}

impl View for Action {
    type V = ActionView;

    open spec fn view(&self) -> ActionView {
        match self {
            Action::Send(r) => ActionView::Send(r@),
            Action::DecodeTokens(b) => ActionView::DecodeTokens(b@),
            Action::Store(m) => ActionView::Store(m@),
            Action::Finish(Ok(b)) => ActionView::Finish(Ok(b@)),
            Action::Finish(Err(e)) => ActionView::Finish(Err(e@)),
        }
    }
}

pub struct CallView {
    pub target: TargetView,
    pub credentials: CredentialView,
    pub phase: Phase,
}

pub open spec fn initial(t: TargetView, c: CredentialView) -> CallView {
    CallView { target: t, credentials: c, phase: Phase::Initial }
}

pub open spec fn in_phase(s: CallView, p: Phase) -> CallView {
    CallView { target: s.target, credentials: s.credentials, phase: p }
}

pub open spec fn finish(s: CallView, r: Result<Seq<char>, ErrorView>) -> (CallView, ActionView) {
    (in_phase(s, Phase::Done), ActionView::Finish(r))
}

pub open spec fn unauthorized() -> ErrorView {
    ErrorView::Server("Unauthorized"@)
}

/// The detail of the error that ends a call handed an event it was not waiting for.
pub open spec fn out_of_order() -> ErrorView {
    ErrorView::Client("event out of order"@)
}

/// One step of an authenticated call. A refresh is attempted only from the
/// original request's answer, so at most once; whatever the replayed request
/// gets is final.
pub open spec fn next(s: CallView, e: EventView) -> (CallView, ActionView) {
    match e {
        EventView::Response(reply) => match s.phase {
            Phase::Initial => match outcome_of(reply) {
                OutcomeView::Success(b) => finish(s, Ok(b)),
                OutcomeView::AuthRejected => finish(s, Err(unauthorized())),
                OutcomeView::RefreshRequired => (
                    in_phase(s, Phase::Refreshing),
                    ActionView::Send(refresh_request(s.credentials)),
                ),
                OutcomeView::TransportError(m) => finish(s, Err(ErrorView::Server(m))),
                OutcomeView::ServerError(_, b) => finish(s, Err(ErrorView::Client(b))),
            },
            Phase::Refreshing => match outcome_of(reply) {
                OutcomeView::Success(b) => (in_phase(s, Phase::Decoding), ActionView::DecodeTokens(b)),
                OutcomeView::AuthRejected => finish(s, Err(unauthorized())),
                OutcomeView::RefreshRequired => finish(s, Err(ErrorView::LoginExpired)),
                OutcomeView::TransportError(m) => finish(s, Err(ErrorView::Server(m))),
                OutcomeView::ServerError(_, b) => finish(s, Err(ErrorView::Client(b))),
            },
            Phase::Replaying => match outcome_of(reply) {
                OutcomeView::Success(b) => finish(s, Ok(b)),
                OutcomeView::AuthRejected => finish(s, Err(unauthorized())),
                OutcomeView::RefreshRequired => finish(s, Err(unauthorized())),
                OutcomeView::TransportError(m) => finish(s, Err(ErrorView::Server(m))),
                OutcomeView::ServerError(_, b) => finish(s, Err(ErrorView::Client(b))),
            },
            _ => finish(s, Err(out_of_order())),
        },
        EventView::Tokens(t) => if s.phase == Phase::Decoding {
            match t {
                Ok(pair) => {
                    let c = with_tokens(s.credentials, pair);
                    (
                        CallView { target: s.target, credentials: c, phase: Phase::Storing },
                        ActionView::Store(c),
                    )
                },
                Err(m) => finish(s, Err(ErrorView::Client(m))),
            }
        } else {
            finish(s, Err(out_of_order()))
        },
        EventView::Stored(r) => if s.phase == Phase::Storing {
            match r {
                Ok(_) => (
                    in_phase(s, Phase::Replaying),
                    ActionView::Send(call_request(s.target, s.credentials)),
                ),
                Err(m) => finish(s, Err(ErrorView::Client(m))),
            }
        } else {
            finish(s, Err(out_of_order()))
        },
    }
}

/// The state reached and the actions asked for, over a sequence of events.
pub open spec fn run(s: CallView, events: Seq<EventView>) -> (CallView, Seq<ActionView>)
    decreases events.len(),
{
    if events.len() == 0 {
        (s, Seq::empty())
    } else {
        let step = next(s, events[0]);
        let rest = run(step.0, events.drop_first());
        (rest.0, seq![step.1] + rest.1)
    }
}

/// One authenticated call, driven by the events its owner hands it.
pub struct AuthCall {
    target: Target,
    credentials: Meta,
    phase: Phase,
}

impl View for AuthCall {
    type V = CallView;

    closed spec fn view(&self) -> CallView {
        CallView { target: self.target@, credentials: self.credentials@, phase: self.phase }
    }
}

impl AuthCall {
    /// Starts a call: with a stored record, the call and its first request;
    /// without one, a local fault and no request at all.
    pub fn begin(target: Target, stored: StoredCredentials) -> (r: Result<(AuthCall, HttpRequest), Error>)
        ensures
            match stored@ {
                StoredView::Found(c) => r matches Ok((call, req)) && call@ == initial(target@, c)
                    && req@ == call_request(target@, c),
                StoredView::NotFound(d) => r matches Err(e) && e@ == ErrorView::Client(d),
                StoredView::Corrupt(d) => r matches Err(e) && e@ == ErrorView::Client(d),
            },
    {
        let credentials = require_credentials(stored)?;
        let req = build_call_request(&target, &credentials);
        Ok((AuthCall { target, credentials, phase: Phase::Initial }, req))
    }

    pub fn phase(&self) -> (p: Phase)
        ensures
            p == self@.phase,
    {
        self.phase
    }

    pub fn is_done(&self) -> (r: bool)
        ensures
            r == (self@.phase == Phase::Done),
    {
        self.phase == Phase::Done
    }

    fn end(&mut self, r: Result<String, Error>) -> (a: Action)
        ensures
            final(self)@ == in_phase(old(self)@, Phase::Done),
            a == Action::Finish(r),
    {
        self.phase = Phase::Done;
        Action::Finish(r)
    }

    /// Takes the next event and says what to do.
    pub fn handle(&mut self, event: Event) -> (a: Action)
        ensures
            (final(self)@, a@) == next(old(self)@, event@),
    {
        match event {
            Event::Response(reply) => {
                let phase = self.phase;
                if phase == Phase::Initial {
                    match classify(reply) {
                        RequestOutcome::Success(b) => self.end(Ok(b)),
                        RequestOutcome::AuthRejected => self.end(Err(Error::unauthorized())),
                        RequestOutcome::RefreshRequired => {
                            self.phase = Phase::Refreshing;
                            Action::Send(build_refresh_request(&self.credentials))
                        },
                        RequestOutcome::TransportError(m) => self.end(Err(Error::Server(m))),
                        RequestOutcome::ServerError(_, b) => self.end(Err(Error::Client(b))),
                    }
                } else if phase == Phase::Refreshing {
                    match classify(reply) {
                        RequestOutcome::Success(b) => {
                            self.phase = Phase::Decoding;
                            Action::DecodeTokens(b)
                        },
                        RequestOutcome::AuthRejected => self.end(Err(Error::unauthorized())),
                        RequestOutcome::RefreshRequired => self.end(Err(Error::LoginExpired)),
                        RequestOutcome::TransportError(m) => self.end(Err(Error::Server(m))),
                        RequestOutcome::ServerError(_, b) => self.end(Err(Error::Client(b))),
                    }
                } else if phase == Phase::Replaying {
                    match classify(reply) {
                        RequestOutcome::Success(b) => self.end(Ok(b)),
                        RequestOutcome::AuthRejected => self.end(Err(Error::unauthorized())),
                        RequestOutcome::RefreshRequired => self.end(Err(Error::unauthorized())),
                        RequestOutcome::TransportError(m) => self.end(Err(Error::Server(m))),
                        RequestOutcome::ServerError(_, b) => self.end(Err(Error::Client(b))),
                    }
                } else {
                    self.end(Err(Error::Client(String::from_str("event out of order"))))
                }
            },
            Event::Tokens(t) => {
                if self.phase == Phase::Decoding {
                    match t {
                        Ok(pair) => {
                            let renewed = Meta {
                                username: self.credentials.username.clone(),
                                server_ip: self.credentials.server_ip.clone(),
                                access_token: pair.access_token,
                                refresh_token: pair.refresh_token,
                            };
                            let stored = renewed.duplicate();
                            self.credentials = renewed;
                            self.phase = Phase::Storing;
                            Action::Store(stored)
                        },
                        Err(m) => self.end(Err(Error::Client(m))),
                    }
                } else {
                    self.end(Err(Error::Client(String::from_str("event out of order"))))
                }
            },
            Event::Stored(r) => {
                if self.phase == Phase::Storing {
                    match r {
                        Ok(()) => {
                            self.phase = Phase::Replaying;
                            Action::Send(build_call_request(&self.target, &self.credentials))
                        },
                        Err(m) => self.end(Err(Error::Client(m))),
                    }
                } else {
                    self.end(Err(Error::Client(String::from_str("event out of order"))))
                }
            },
        }
    }
}

} // verus!
