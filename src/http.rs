use vstd::prelude::*;

verus! {

/// The status a server answers with when the bearer token is rejected outright.
pub const UNAUTHORIZED: u16 = 401;

/// The distinguished status meaning "the access token is stale: refresh it".
pub const NETWORK_AUTHENTICATION_REQUIRED: u16 = 511;

#[derive(Clone, Copy, Debug, PartialEq, Eq, Structural)]
pub enum Method {
    Get,
    Post,
}

/// What an outgoing request carries as its body.
#[derive(Debug)]
pub enum Body {
    Empty,
    /// JSON text, sent with a JSON content type.
    Json(String),
    /// Plain text, sent as it is.
    Text(String),
}

pub enum BodyView {
    Empty,
    Json(Seq<char>),
    Text(Seq<char>),
}

impl View for Body {
    type V = BodyView;

    open spec fn view(&self) -> BodyView {
        match self {
            Body::Empty => BodyView::Empty,
            Body::Json(t) => BodyView::Json(t@),
            Body::Text(t) => BodyView::Text(t@),
        }
    }
}

impl Body {
    pub fn duplicate(&self) -> (r: Body)
        ensures
            r@ == self@,
    {
        match self {
            Body::Empty => Body::Empty,
            Body::Json(t) => Body::Json(t.clone()),
            Body::Text(t) => Body::Text(t.clone()),
        }
    }
}

/// Query pairs as mathematical values.
pub open spec fn pairs_view(q: Seq<(String, String)>) -> Seq<(Seq<char>, Seq<char>)> {
    q.map_values(|p: (String, String)| (p.0@, p.1@))
}

pub fn duplicate_pairs(q: &Vec<(String, String)>) -> (r: Vec<(String, String)>)
    ensures
        pairs_view(r@) == pairs_view(q@),
{
    let mut r: Vec<(String, String)> = Vec::new();
    let mut i: usize = 0;
    while i < q.len()
        invariant
            i <= q@.len(),
            r@.len() == i,
            forall|j: int| 0 <= j < i ==> r@[j].0@ == q@[j].0@ && r@[j].1@ == q@[j].1@,
        decreases q@.len() - i,
    {
        let p = &q[i];
        r.push((p.0.clone(), p.1.clone()));
        i = i + 1;
    }
    assert(pairs_view(r@) =~= pairs_view(q@));
    r
}

/// One HTTP request, ready to be sent by whoever owns the transport.
#[derive(Debug)]
pub struct HttpRequest {
    pub method: Method,
    /// Full URL without the query string.
    pub url: String,
    /// Value of the `Authorization` header, if one is sent.
    pub authorization: Option<String>,
    /// Query pairs, to be URL-encoded by the transport.
    pub query: Vec<(String, String)>,
    pub body: Body,
}

pub struct RequestView {
    pub method: Method,
    pub url: Seq<char>,
    pub authorization: Option<Seq<char>>,
    pub query: Seq<(Seq<char>, Seq<char>)>,
    pub body: BodyView,
}

impl View for HttpRequest {
    type V = RequestView;

    open spec fn view(&self) -> RequestView {
        RequestView {
            method: self.method,
            url: self.url@,
            authorization: match self.authorization {
                Some(a) => Some(a@),
                None => None,
            },
            query: pairs_view(self.query@),
            body: self.body@,
        }
    }
}

/// `http://` followed by the server address and the path.
pub open spec fn endpoint_url(server: Seq<char>, path: Seq<char>) -> Seq<char> {
    "http://"@ + server + path
}

/// The `Authorization` header value for a bearer token.
pub open spec fn bearer(token: Seq<char>) -> Seq<char> {
    "Bearer "@ + token
}

pub fn endpoint(server: &str, path: &str) -> (r: String)
    ensures
        r@ == endpoint_url(server@, path@),
{
    let mut r = String::from_str("http://");
    r.append(server);
    r.append(path);
    r
}

pub fn bearer_header(token: &str) -> (r: String)
    ensures
        r@ == bearer(token@),
{
    let mut r = String::from_str("Bearer ");
    r.append(token);
    r
}

/// What came back for one request.
#[derive(Debug)]
pub enum Reply {
    /// The server answered with this status and body text.
    Received { status: u16, body: String },
    /// The transport failed (connection, timeout, DNS), with its message.
    Failed(String),
}

pub enum ReplyView {
    Received { status: u16, body: Seq<char> },
    Failed(Seq<char>),
}

impl View for Reply {
    type V = ReplyView;

    open spec fn view(&self) -> ReplyView {
        match self {
            Reply::Received { status, body } => ReplyView::Received { status: *status, body: body@ },
            Reply::Failed(m) => ReplyView::Failed(m@),
        }
    }
}

/// The tagged result of one exchange with the server.
#[derive(Debug)]
pub enum RequestOutcome {
    /// A 2xx status, with the body.
    Success(String),
    /// The token was rejected outright.
    AuthRejected,
    /// The token must be refreshed.
    RefreshRequired,
    /// The request never got an answer.
    TransportError(String),
    /// Any other status, with the body.
    ServerError(u16, String),
}

pub enum OutcomeView {
    Success(Seq<char>),
    AuthRejected,
    RefreshRequired,
    TransportError(Seq<char>),
    ServerError(u16, Seq<char>),
}

impl View for RequestOutcome {
    type V = OutcomeView;

    open spec fn view(&self) -> OutcomeView {
        match self {
            RequestOutcome::Success(b) => OutcomeView::Success(b@),
            RequestOutcome::AuthRejected => OutcomeView::AuthRejected,
            RequestOutcome::RefreshRequired => OutcomeView::RefreshRequired,
            RequestOutcome::TransportError(m) => OutcomeView::TransportError(m@),
            RequestOutcome::ServerError(s, b) => OutcomeView::ServerError(*s, b@),
        }
    }
}

pub open spec fn is_success(status: u16) -> bool {
    200 <= status <= 299
}

/// The one place where a reply is sorted into an outcome.
pub open spec fn outcome_of(r: ReplyView) -> OutcomeView {
    match r {
        ReplyView::Failed(m) => OutcomeView::TransportError(m),
        ReplyView::Received { status, body } => {
            if is_success(status) {
                OutcomeView::Success(body)
            } else if status == UNAUTHORIZED {
                OutcomeView::AuthRejected
            } else if status == NETWORK_AUTHENTICATION_REQUIRED {
                OutcomeView::RefreshRequired
            } else {
                OutcomeView::ServerError(status, body)
            }
        },
    }
}

pub fn classify(reply: Reply) -> (o: RequestOutcome)
    ensures
        o@ == outcome_of(reply@),
{
    match reply {
        Reply::Failed(m) => RequestOutcome::TransportError(m),
        Reply::Received { status, body } => {
            if 200 <= status && status <= 299 {
                RequestOutcome::Success(body)
            } else if status == UNAUTHORIZED {
                RequestOutcome::AuthRejected
            } else if status == NETWORK_AUTHENTICATION_REQUIRED {
                RequestOutcome::RefreshRequired
            } else {
                RequestOutcome::ServerError(status, body)
            }
        },
    }
}

} // verus!
