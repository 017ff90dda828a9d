use time_scheduler_client::clock::{parse_clock_fields, parse_decimal_u32, parse_time_of_day, split_colons};
use time_scheduler_client::credentials::{encode_credentials, LoginRequest, LoginResponse, Meta};
use time_scheduler_client::datatypes::{default_palette, newest_first, Locator};
use time_scheduler_client::http::{classify, Body, Method, Reply, RequestOutcome};
use time_scheduler_client::login::{finish_login, login_reply, login_request};
use time_scheduler_client::Error;

fn client_detail(e: Error) -> String {
    match e {
        Error::Client(d) => d,
        other => panic!("expected a Client error, got {:?}", other),
    }
}

#[test]
fn secret_is_hashed_before_sending() {
    let req = LoginRequest::for_secret("hello");
    assert_eq!(req.key, "2cf24dba5fb0a30e26e83b2ac5b9e29e1b161e5c1fa7425e73043362938b9824");
}

#[test]
fn login_request_posts_digest_as_json() {
    let req = login_request("srv:1", "hello").unwrap();
    assert_eq!(req.method, Method::Post);
    assert_eq!(req.url, "http://srv:1/auth/login");
    assert_eq!(req.authorization, None);
    match req.body {
        Body::Json(j) => assert_eq!(
            j,
            "{\"key\":\"2cf24dba5fb0a30e26e83b2ac5b9e29e1b161e5c1fa7425e73043362938b9824\"}"
        ),
        other => panic!("expected a JSON body, got {:?}", other),
    }
}

#[test]
fn login_reply_outcomes() {
    assert_eq!(login_reply(Reply::Received { status: 200, body: "{}".to_string() }).unwrap(), "{}");
    assert!(matches!(
        login_reply(Reply::Received { status: 401, body: String::new() }),
        Err(Error::Server(d)) if d == "Unauthorized"
    ));
    assert!(matches!(
        login_reply(Reply::Received { status: 500, body: "down".to_string() }),
        Err(Error::Client(d)) if d == "down"
    ));
    assert!(matches!(login_reply(Reply::Failed("dns".to_string())), Err(Error::Server(d)) if d == "dns"));
}

#[test]
fn finish_login_builds_record_and_file() {
    let tokens = LoginResponse { access_token: "A".to_string(), refresh_token: "R".to_string() };
    let (m, text) = finish_login("bob".to_string(), "h:9".to_string(), Ok(tokens)).unwrap();
    assert_eq!(m.username, "bob");
    assert_eq!(m.access_token, "A");
    assert_eq!(
        text,
        "{\"username\":\"bob\",\"server_ip\":\"h:9\",\"access_token\":\"A\",\"refresh_token\":\"R\"}"
    );
    let e = finish_login("bob".to_string(), "h:9".to_string(), Err("eof".to_string())).unwrap_err();
    assert_eq!(client_detail(e), "eof");
}

#[test]
fn credential_file_escapes_strings() {
    let m = Meta {
        username: "a\"b".to_string(),
        server_ip: "x\\y".to_string(),
        access_token: "t\n".to_string(),
        refresh_token: String::new(),
    };
    assert_eq!(
        encode_credentials(&m).unwrap(),
        "{\"username\":\"a\\\"b\",\"server_ip\":\"x\\\\y\",\"access_token\":\"t\\n\",\"refresh_token\":\"\"}"
    );
}

#[test]
fn classify_sorts_statuses() {
    assert!(matches!(classify(Reply::Received { status: 299, body: "x".to_string() }), RequestOutcome::Success(b) if b == "x"));
    assert!(matches!(classify(Reply::Received { status: 401, body: String::new() }), RequestOutcome::AuthRejected));
    assert!(matches!(classify(Reply::Received { status: 511, body: String::new() }), RequestOutcome::RefreshRequired));
    assert!(matches!(classify(Reply::Received { status: 404, body: "nf".to_string() }), RequestOutcome::ServerError(404, b) if b == "nf"));
    assert!(matches!(classify(Reply::Received { status: 300, body: String::new() }), RequestOutcome::ServerError(300, _)));
    assert!(matches!(classify(Reply::Failed("t".to_string())), RequestOutcome::TransportError(m) if m == "t"));
}

#[test]
fn colon_pieces() {
    assert_eq!(split_colons("12:05:09"), vec!["12", "05", "09"]);
    assert_eq!(split_colons(""), vec![""]);
    assert_eq!(split_colons("::"), vec!["", "", ""]);
    assert_eq!(split_colons("a:b:c:d"), vec!["a", "b", "c", "d"]);
}

#[test]
fn decimal_parsing_follows_u32_rules() {
    assert_eq!(parse_decimal_u32("0"), Some(0));
    assert_eq!(parse_decimal_u32("007"), Some(7));
    assert_eq!(parse_decimal_u32("+42"), Some(42));
    assert_eq!(parse_decimal_u32("4294967295"), Some(u32::MAX));
    assert_eq!(parse_decimal_u32("4294967296"), None);
    assert_eq!(parse_decimal_u32("99999999999999999999999"), None);
    assert_eq!(parse_decimal_u32(""), None);
    assert_eq!(parse_decimal_u32("+"), None);
    assert_eq!(parse_decimal_u32("-1"), None);
    assert_eq!(parse_decimal_u32("1 "), None);
    for s in ["0", "12", "+3", "", "x", "4294967296", "-0"] {
        assert_eq!(parse_decimal_u32(s), s.parse::<u32>().ok());
    }
}

#[test]
fn clock_fields_and_errors() {
    assert_eq!(parse_clock_fields("13:45:10", "split time").unwrap(), (13, 45, 10));
    assert_eq!(parse_clock_fields("1:2:3:junk", "split time").unwrap(), (1, 2, 3));
    assert_eq!(
        client_detail(parse_clock_fields("x:00:00", "split time").unwrap_err()),
        "Failed to parse split time hour"
    );
    assert_eq!(
        client_detail(parse_clock_fields("10", "new start time").unwrap_err()),
        "Failed to parse new start time minute"
    );
    assert_eq!(
        client_detail(parse_clock_fields("10:20:", "new end time").unwrap_err()),
        "Failed to parse new end time second"
    );
}

#[test]
fn time_of_day_range_is_checked() {
    let t = parse_time_of_day("23:59:59", "split time").unwrap();
    assert_eq!((t.hour(), t.minute(), t.second()), (23, 59, 59));
    assert_eq!(t.to_naive_time(), chrono::NaiveTime::from_hms_opt(23, 59, 59).unwrap());
    let midnight = parse_time_of_day("0:0:+0", "split time").unwrap();
    assert_eq!(midnight.to_naive_time(), chrono::NaiveTime::from_hms_opt(0, 0, 0).unwrap());
    let t = parse_time_of_day("07:05:09:xx", "new start time").unwrap();
    assert_eq!((t.hour(), t.minute(), t.second()), (7, 5, 9));
    assert_eq!(t.to_naive_time(), chrono::NaiveTime::from_hms_opt(7, 5, 9).unwrap());
    assert_eq!(
        client_detail(parse_time_of_day("24:00:00", "split time").unwrap_err()),
        "Failed to create split time"
    );
    assert_eq!(
        client_detail(parse_time_of_day("10:60:00", "new end time").unwrap_err()),
        "Failed to create new end time"
    );
    assert_eq!(
        client_detail(parse_time_of_day("ab:00:00", "new end time").unwrap_err()),
        "Failed to parse new end time hour"
    );
}

#[test]
fn default_palette_is_violet() {
    let p = default_palette();
    assert_eq!(p.idx, 1);
    assert_eq!(p.palette.name, "Violet");
    assert_eq!(p.palette.accent, "#3e0e3e");
    assert_eq!(p.palette.accent_hover, "#efceff");
    assert_eq!(p.palette.accent2, "#de9cff");
    assert_eq!(p.palette.bg, "#200a2b");
    assert_eq!(p.palette.bg_dark, "#1e1e1e");
    assert_eq!(p.palette.disabled_color, "#fff7c3");
}

#[test]
fn day_blocks_newest_first() {
    assert_eq!(newest_first(vec![1, 2, 3]), vec![3, 2, 1]);
    assert_eq!(newest_first(Vec::<u8>::new()), Vec::<u8>::new());
}

#[test]
fn unauthorized_error_detail() {
    assert!(matches!(Error::unauthorized(), Error::Server(d) if d == "Unauthorized"));
    assert!(Error::LoginExpired.is_login_expired());
    assert!(!Error::Client(String::new()).is_login_expired());
}

#[test]
fn locator_location_quotes_each_part() {
    let l = Locator::new(
        "\"1.2.3.4\"".to_string(),
        "48.85".to_string(),
        "2.35".to_string(),
        "\"Paris\"".to_string(),
        "\"Île-de-France\"".to_string(),
        "\"France\"".to_string(),
        "\"Europe/Paris\"".to_string(),
    );
    assert_eq!(l.city, "\"Paris\"");
    assert_eq!(l.location, "\"\\\"Paris\\\"\", \"\\\"Île-de-France\\\"\", \"\\\"France\\\"\"");
    assert_eq!(l.location, format!("{:?}, {:?}, {:?}", l.city, l.region, l.country));
}

#[test]
fn control_characters_use_serde_json_escapes() {
    let m = Meta {
        username: "\u{1}\u{8}\u{c}\r\t\u{1f}".to_string(),
        server_ip: "é\u{7f}/".to_string(),
        access_token: String::new(),
        refresh_token: String::new(),
    };
    assert_eq!(
        encode_credentials(&m).unwrap(),
        "{\"username\":\"\\u0001\\b\\f\\r\\t\\u001f\",\"server_ip\":\"é\u{7f}/\",\"access_token\":\"\",\"refresh_token\":\"\"}"
    );
}

#[test]
fn digest_is_64_lowercase_hex_digits() {
    let key = LoginRequest::for_secret("correct horse battery staple").key;
    assert_eq!(key.len(), 64);
    assert!(key.chars().all(|c| c.is_ascii_digit() || ('a'..='f').contains(&c)));
    assert_ne!(key, "correct horse battery staple");
}
