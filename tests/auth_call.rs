use time_scheduler_client::client::{Action, AuthCall, Event, Phase, Target};
use time_scheduler_client::credentials::{encode_credentials, LoginResponse, Meta, StoredCredentials};
use time_scheduler_client::http::{Body, HttpRequest, Method, Reply};
use time_scheduler_client::Error;

fn meta() -> Meta {
    Meta {
        username: "ada".to_string(),
        server_ip: "10.0.0.5:8080".to_string(),
        access_token: "acc-1".to_string(),
        refresh_token: "ref-1".to_string(),
    }
}

fn state_target() -> Target {
    Target::get("/state".to_string(), vec![])
}

fn received(status: u16, body: &str) -> Event {
    Event::Response(Reply::Received { status, body: body.to_string() })
}

fn start(target: Target) -> (AuthCall, HttpRequest) {
    match AuthCall::begin(target, StoredCredentials::Found(meta())) {
        Ok(pair) => pair,
        Err(e) => panic!("no call started: {:?}", e),
    }
}

fn finished_ok(a: Action) -> String {
    match a {
        Action::Finish(Ok(body)) => body,
        other => panic!("expected a successful end, got {:?}", other),
    }
}

#[test]
fn first_request_carries_bearer_token() {
    let (call, req) = start(state_target());
    assert_eq!(req.method, Method::Get);
    assert_eq!(req.url, "http://10.0.0.5:8080/state");
    assert_eq!(req.authorization.as_deref(), Some("Bearer acc-1"));
    assert!(req.query.is_empty());
    assert!(matches!(req.body, Body::Empty));
    assert_eq!(call.phase(), Phase::Initial);
}

#[test]
fn get_query_pairs_are_kept() {
    let target = Target::get(
        "/analysis".to_string(),
        vec![("start".to_string(), "a".to_string()), ("end".to_string(), "b".to_string())],
    );
    let (_, req) = start(target);
    assert_eq!(req.url, "http://10.0.0.5:8080/analysis");
    assert_eq!(
        req.query,
        vec![("start".to_string(), "a".to_string()), ("end".to_string(), "b".to_string())]
    );
}

#[test]
fn success_returns_body_unchanged() {
    let (mut call, _) = start(state_target());
    let body = "{\"blocktypes\":[],\"daydata\":[]}";
    let a = call.handle(received(200, body));
    assert_eq!(finished_ok(a), body);
    assert!(call.is_done());
}

#[test]
fn any_2xx_is_success() {
    let (mut call, _) = start(state_target());
    assert_eq!(finished_ok(call.handle(received(204, ""))), "");
}

#[test]
fn refresh_once_then_success_stores_new_pair() {
    let (mut call, _) = start(state_target());
    let refresh = match call.handle(received(511, "stale")) {
        Action::Send(r) => r,
        other => panic!("expected the refresh request, got {:?}", other),
    };
    assert_eq!(refresh.method, Method::Post);
    assert_eq!(refresh.url, "http://10.0.0.5:8080/auth/refresh");
    assert_eq!(refresh.authorization, None);
    assert!(matches!(refresh.body, Body::Text(ref t) if t == "ref-1"));

    let tokens_body = "{\"access_token\":\"acc-2\",\"refresh_token\":\"ref-2\"}";
    match call.handle(received(200, tokens_body)) {
        Action::DecodeTokens(b) => assert_eq!(b, tokens_body),
        other => panic!("expected a decode request, got {:?}", other),
    }
    let pair = LoginResponse { access_token: "acc-2".to_string(), refresh_token: "ref-2".to_string() };
    let stored = match call.handle(Event::Tokens(Ok(pair))) {
        Action::Store(m) => m,
        other => panic!("expected a store request, got {:?}", other),
    };
    assert_eq!(stored.username, "ada");
    assert_eq!(stored.server_ip, "10.0.0.5:8080");
    assert_eq!(stored.access_token, "acc-2");
    assert_eq!(stored.refresh_token, "ref-2");
    let file = encode_credentials(&stored).unwrap();
    assert_eq!(
        file,
        "{\"username\":\"ada\",\"server_ip\":\"10.0.0.5:8080\",\"access_token\":\"acc-2\",\"refresh_token\":\"ref-2\"}"
    );

    let replay = match call.handle(Event::Stored(Ok(()))) {
        Action::Send(r) => r,
        other => panic!("expected the replayed request, got {:?}", other),
    };
    assert_eq!(replay.url, "http://10.0.0.5:8080/state");
    assert_eq!(replay.authorization.as_deref(), Some("Bearer acc-2"));
    assert_eq!(finished_ok(call.handle(received(200, "[1]"))), "[1]");
    assert!(call.is_done());
}

#[test]
fn expired_refresh_is_login_expired_and_stores_nothing() {
    let (mut call, _) = start(state_target());
    assert!(matches!(call.handle(received(511, "")), Action::Send(_)));
    let a = call.handle(received(511, ""));
    match a {
        Action::Finish(Err(e)) => assert!(e.is_login_expired()),
        other => panic!("expected LoginExpired, got {:?}", other),
    }
    assert!(call.is_done());
    // Anything after the end only reports an end: no store, no request.
    assert!(matches!(call.handle(Event::Stored(Ok(()))), Action::Finish(Err(Error::Client(_)))));
}

#[test]
fn unauthorized_is_not_refreshed() {
    let (mut call, _) = start(state_target());
    match call.handle(received(401, "nope")) {
        Action::Finish(Err(Error::Server(d))) => assert_eq!(d, "Unauthorized"),
        other => panic!("expected Server(Unauthorized), got {:?}", other),
    }
    assert!(call.is_done());
    assert!(!matches!(call.handle(received(200, "")), Action::Send(_)));
}

#[test]
fn repeated_get_gives_identical_results() {
    let mut requests = 0;
    let mut results = Vec::new();
    for _ in 0..2 {
        let (mut call, _) = start(Target::get("/blocktype/get".to_string(), vec![]));
        requests += 1;
        let mut a = call.handle(received(200, "[{\"id\":1}]"));
        while let Action::Send(_) = a {
            requests += 1;
            a = call.handle(received(200, "[{\"id\":1}]"));
        }
        results.push(finished_ok(a));
    }
    assert_eq!(requests, 2);
    assert_eq!(results[0], results[1]);
}

#[test]
fn missing_credentials_fail_before_any_request() {
    let r = AuthCall::begin(state_target(), StoredCredentials::NotFound("no meta.json".to_string()));
    match r {
        Err(Error::Client(d)) => assert_eq!(d, "no meta.json"),
        _ => panic!("expected a Client error"),
    }
}

#[test]
fn corrupt_credentials_are_a_client_error() {
    let r = AuthCall::begin(state_target(), StoredCredentials::Corrupt("bad json".to_string()));
    assert!(matches!(r, Err(Error::Client(d)) if d == "bad json"));
}

#[test]
fn post_new_block_type_with_empty_body_succeeds() {
    let payload = "{\"name\":\"Deep work\",\"color\":{\"r\":1,\"g\":2,\"b\":3}}".to_string();
    let (mut call, req) = start(Target::post("/blocktype/new".to_string(), payload.clone()));
    assert_eq!(req.method, Method::Post);
    assert_eq!(req.url, "http://10.0.0.5:8080/blocktype/new");
    assert!(matches!(req.body, Body::Json(ref j) if *j == payload));
    assert_eq!(finished_ok(call.handle(received(200, ""))), "");
}

#[test]
fn transport_failure_is_a_server_error() {
    let (mut call, _) = start(state_target());
    let a = call.handle(Event::Response(Reply::Failed("connection refused".to_string())));
    assert!(matches!(a, Action::Finish(Err(Error::Server(d))) if d == "connection refused"));
}

#[test]
fn other_status_is_a_client_error_with_body() {
    let (mut call, _) = start(state_target());
    let a = call.handle(received(500, "boom"));
    assert!(matches!(a, Action::Finish(Err(Error::Client(d))) if d == "boom"));
}

#[test]
fn refresh_rejected_outright_is_unauthorized() {
    let (mut call, _) = start(state_target());
    call.handle(received(511, ""));
    let a = call.handle(received(401, ""));
    assert!(matches!(a, Action::Finish(Err(Error::Server(d))) if d == "Unauthorized"));
}

#[test]
fn undecodable_tokens_are_a_client_error() {
    let (mut call, _) = start(state_target());
    call.handle(received(511, ""));
    call.handle(received(200, "garbage"));
    let a = call.handle(Event::Tokens(Err("expected value".to_string())));
    assert!(matches!(a, Action::Finish(Err(Error::Client(d))) if d == "expected value"));
}

#[test]
fn failed_store_is_a_client_error() {
    let (mut call, _) = start(state_target());
    call.handle(received(511, ""));
    call.handle(received(200, "{}"));
    let pair = LoginResponse { access_token: "a".to_string(), refresh_token: "r".to_string() };
    assert!(matches!(call.handle(Event::Tokens(Ok(pair))), Action::Store(_)));
    let a = call.handle(Event::Stored(Err("read-only".to_string())));
    assert!(matches!(a, Action::Finish(Err(Error::Client(d))) if d == "read-only"));
}

#[test]
fn second_refresh_demand_after_replay_is_terminal() {
    let (mut call, _) = start(state_target());
    call.handle(received(511, ""));
    call.handle(received(200, "{}"));
    let pair = LoginResponse { access_token: "a".to_string(), refresh_token: "r".to_string() };
    call.handle(Event::Tokens(Ok(pair)));
    assert!(matches!(call.handle(Event::Stored(Ok(()))), Action::Send(_)));
    let a = call.handle(received(511, ""));
    assert!(matches!(a, Action::Finish(Err(Error::Server(d))) if d == "Unauthorized"));
    assert!(call.is_done());
}
