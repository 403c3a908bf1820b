//! Who may talk to the daemon over HTTP.

use goxlr_daemon::http_server::{
    build_auth_cookie_from_query, cookie_for_token, find_path_extension, get_path, get_sample, get_scribble,
    has_parent_dir, is_cookie_value_safe, is_cors_origin_allowed, is_token_authorized, page_file, page_path,
    PageAnswer, PathAnswer, RequestHead, SampleAnswer, Scribble, ScribbleAnswer,
};

fn request() -> RequestHead {
    RequestHead {
        method: String::from("GET"),
        path: String::from("/"),
        query: String::new(),
        scheme: String::from("http"),
        host: String::from("localhost:8080"),
        authorization: None,
        cookies: Vec::new(),
        origin: None,
        referer: None,
    }
}

fn cookie(value: &str) -> Vec<String> {
    vec![format!("goxlr_http_auth={}", value)]
}

#[test]
fn auth_allows_bearer_header() {
    let mut req = request();
    req.authorization = Some(String::from("Bearer expected-token"));
    assert!(is_token_authorized(&req, Some("expected-token")));
}

#[test]
fn auth_allows_session_cookie() {
    let mut req = request();
    req.cookies = cookie("expected-token");
    assert!(is_token_authorized(&req, Some("expected-token")));
}

#[test]
fn auth_allows_same_origin_session_cookie_on_post() {
    let mut req = request();
    req.method = String::from("POST");
    req.path = String::from("/api/command");
    req.host = String::from("127.0.0.1:14564");
    req.origin = Some(String::from("http://127.0.0.1:14564"));
    req.cookies = cookie("expected-token");
    assert!(is_token_authorized(&req, Some("expected-token")));
}

#[test]
fn auth_rejects_cross_origin_session_cookie_on_post() {
    let mut req = request();
    req.method = String::from("POST");
    req.path = String::from("/api/command");
    req.host = String::from("127.0.0.1:14564");
    req.origin = Some(String::from("http://127.0.0.1:3000"));
    req.cookies = cookie("expected-token");
    assert!(!is_token_authorized(&req, Some("expected-token")));
}

#[test]
fn cookie_values_must_be_header_safe() {
    assert!(is_cookie_value_safe("abc-123_~"));
    assert!(!is_cookie_value_safe("has spaces"));
    assert!(!is_cookie_value_safe("has;semicolon"));
}

fn websocket_request() -> RequestHead {
    let mut req = request();
    req.path = String::from("/api/websocket");
    req
}

#[test]
fn auth_rejects_cross_origin_websocket_cookie() {
    let mut req = websocket_request();
    req.host = String::from("127.0.0.1:14564");
    req.origin = Some(String::from("http://127.0.0.1:3000"));
    req.cookies = cookie("expected-token");
    assert!(!is_token_authorized(&req, Some("expected-token")));
}

#[test]
fn auth_allows_same_origin_websocket_cookie() {
    let mut req = websocket_request();
    req.host = String::from("127.0.0.1:14564");
    req.origin = Some(String::from("http://127.0.0.1:14564"));
    req.cookies = cookie("expected-token");
    assert!(is_token_authorized(&req, Some("expected-token")));
}

#[test]
fn auth_rejects_websocket_cookie_without_origin() {
    let mut req = websocket_request();
    req.cookies = cookie("expected-token");
    assert!(!is_token_authorized(&req, Some("expected-token")));
}

#[test]
fn auth_allows_query_token_for_websocket_only() {
    let mut websocket_req = websocket_request();
    websocket_req.query = String::from("token=expected-token");
    let mut command_req = request();
    command_req.path = String::from("/api/command");
    command_req.query = String::from("token=expected-token");
    assert!(is_token_authorized(&websocket_req, Some("expected-token")));
    assert!(!is_token_authorized(&command_req, Some("expected-token")));
}

#[test]
fn auth_rejects_wrong_cookie() {
    let mut req = request();
    req.cookies = cookie("wrong-token");
    assert!(!is_token_authorized(&req, Some("expected-token")));
}

#[test]
fn no_expected_token_lets_everyone_in() {
    assert!(is_token_authorized(&request(), None));
    assert!(!is_token_authorized(&request(), Some("expected-token")));
}

#[test]
fn wrong_bearer_token_is_refused() {
    let mut req = request();
    req.authorization = Some(String::from("Bearer other"));
    assert!(!is_token_authorized(&req, Some("expected-token")));
    req.authorization = Some(String::from("expected-token"));
    assert!(!is_token_authorized(&req, Some("expected-token")));
}

#[test]
fn cookie_is_found_among_others() {
    let mut req = request();
    req.cookies = vec![
        String::from("a=b"),
        String::from("x=y;  goxlr_http_auth=expected-token ; z=1"),
    ];
    assert!(is_token_authorized(&req, Some("expected-token")));
    req.cookies = vec![String::from("xgoxlr_http_auth=expected-token")];
    assert!(!is_token_authorized(&req, Some("expected-token")));
}

#[test]
fn referer_counts_where_no_origin_is_named() {
    let mut req = request();
    req.method = String::from("POST");
    req.cookies = cookie("expected-token");
    assert!(!is_token_authorized(&req, Some("expected-token")));
    req.referer = Some(String::from("http://localhost:8080/page"));
    assert!(is_token_authorized(&req, Some("expected-token")));
    req.referer = Some(String::from("http://localhost:8080.example.org/"));
    assert!(!is_token_authorized(&req, Some("expected-token")));
}

#[test]
fn query_token_is_decoded() {
    let mut req = websocket_request();
    req.query = String::from("a=1&token=two%20words");
    assert!(is_token_authorized(&req, Some("two words")));
    assert!(!is_token_authorized(&req, Some("two%20words")));
}

#[test]
fn token_in_query_earns_cookie() {
    let mut req = request();
    req.query = String::from("token=abc-123");
    let cookie = build_auth_cookie_from_query(&req, Some("abc-123")).unwrap();
    assert_eq!(
        String::from_utf8(cookie).unwrap(),
        "goxlr_http_auth=abc-123; Path=/; HttpOnly; SameSite=Strict"
    );
    assert!(build_auth_cookie_from_query(&req, Some("other")).is_none());
    assert!(build_auth_cookie_from_query(&req, None).is_none());
}

#[test]
fn cookie_lets_its_owner_in_again() {
    let text = cookie_for_token(Some("abc-123"), &Some(String::from("abc-123"))).unwrap();
    let first = text.split(';').next().unwrap();
    let mut req = request();
    req.cookies = vec![String::from(first)];
    assert!(is_token_authorized(&req, Some("abc-123")));
}

#[test]
fn unsafe_token_earns_no_cookie() {
    assert!(cookie_for_token(Some("a;b"), &Some(String::from("a;b"))).is_none());
    assert!(cookie_for_token(Some("a"), &None).is_none());
}

#[test]
fn only_local_origins_may_read() {
    assert!(is_cors_origin_allowed(b"http://127.0.0.1:3000"));
    assert!(is_cors_origin_allowed(b"http://localhost"));
    assert!(!is_cors_origin_allowed(b"https://localhost"));
    assert!(!is_cors_origin_allowed(b"http"));
}

#[test]
fn site_begins_at_its_index() {
    assert_eq!(page_path("/"), "/index.html");
    assert_eq!(page_path(""), "/index.html");
    assert_eq!(page_path("/a.js"), "/a.js");
    assert_eq!(page_file("/a.js"), "a.js");
}

#[test]
fn pages_are_sent_under_their_type() {
    let mut req = request();
    req.path = String::from("/app.css");
    match goxlr_daemon::http_server::default(&req, None, false, true) {
        PageAnswer::Contents { media_type } => assert_eq!(media_type, "text/css"),
        other => panic!("{:?}", other),
    }
    match goxlr_daemon::http_server::default(&req, None, false, false) {
        PageAnswer::NotFound => {}
        other => panic!("{:?}", other),
    }
}

#[test]
fn unknown_files_are_sent_as_streams() {
    let mut req = request();
    req.path = String::from("/data.unknownkind");
    match goxlr_daemon::http_server::default(&req, None, false, true) {
        PageAnswer::Contents { media_type } => assert_eq!(media_type, "application/octet-stream"),
        other => panic!("{:?}", other),
    }
}

#[test]
fn extensions_are_those_of_the_last_step() {
    for (path, windows, extension) in [
        ("/a.b/c.css", false, "css"),
        ("/a.b/c", false, ""),
        ("/a.css/./", false, "css"),
        ("a.css/..", false, ""),
        (".css", false, ""),
        ("a.", false, ""),
        ("", false, ""),
        ("a\\.png", false, "png"),
        ("a\\.png", true, ""),
        ("c:.png", true, ""),
        ("c:\\b.png", true, "png"),
    ] {
        assert_eq!(find_path_extension(path, windows), extension, "{path}");
    }
    let mut req = request();
    req.path = String::from("/a\\.png");
    match goxlr_daemon::http_server::default(&req, None, false, true) {
        PageAnswer::Contents { media_type } => assert_eq!(media_type, "image/png"),
        other => panic!("{:?}", other),
    }
    match goxlr_daemon::http_server::default(&req, None, true, true) {
        PageAnswer::Contents { media_type } => assert_eq!(media_type, "application/octet-stream"),
        other => panic!("{:?}", other),
    }
}

#[test]
fn page_with_token_is_redirected() {
    let mut req = request();
    req.query = String::from("token=t");
    match goxlr_daemon::http_server::default(&req, Some("t"), false, true) {
        PageAnswer::Redirect { location, cookie } => {
            assert_eq!(location, "/");
            assert_eq!(
                cookie,
                b"goxlr_http_auth=t; Path=/; HttpOnly; SameSite=Strict".to_vec()
            );
        }
        other => panic!("{:?}", other),
    }
}

#[test]
fn samples_stay_in_their_directory() {
    let file = Some("/samples/a.wav");
    assert_eq!(get_sample(false, "a.wav", false, file, true), SampleAnswer::Unauthorized);
    assert_eq!(get_sample(true, "../a.wav", false, file, true), SampleAnswer::Forbidden);
    assert_eq!(get_sample(true, "a/../b.wav", false, file, true), SampleAnswer::Forbidden);
    for path in ["..\\a.wav", "a\\..\\b.wav", "a/..\\b.wav", "c:..\\b.wav"] {
        assert_eq!(get_sample(true, path, true, file, true), SampleAnswer::Forbidden);
        assert!(!has_parent_dir(path, false));
    }
    assert_eq!(
        get_sample(true, "a..b.wav", false, file, true),
        SampleAnswer::Contents { media_type: String::from("audio/wav") }
    );
    assert_eq!(get_sample(true, "a.wav", false, None, true), SampleAnswer::NotFound);
    assert_eq!(get_sample(true, "a.wav", false, file, false), SampleAnswer::Unreadable);
}

#[test]
fn path_finds_a_part_of_the_state() {
    let mut req = request();
    req.query = String::from("path=$.mixers.a");
    match get_path(&req, None, Some("{\"mixers\":{\"a\":5}}")) {
        PathAnswer::Found(values) => assert_eq!(values, "[5]"),
        other => panic!("{:?}", other),
    }
    match get_path(&req, None, None) {
        PathAnswer::Failed => {}
        other => panic!("{:?}", other),
    }
    match get_path(&req, Some("t"), Some("{}")) {
        PathAnswer::Unauthorized => {}
        other => panic!("{:?}", other),
    }
    match get_path(&request(), None, Some("{}")) {
        PathAnswer::Failed => {}
        other => panic!("{:?}", other),
    }
}

fn scribble(text: &str) -> Scribble {
    Scribble {
        file_name: None,
        bottom_text: Some(String::from(text)),
        left_text: None,
        inverted: false,
    }
}

#[test]
fn picture_is_drawn_once() {
    assert_eq!(get_scribble(&None, &None, true), ScribbleAnswer::NotFound);
    assert_eq!(get_scribble(&Some(scribble("a")), &None, false), ScribbleAnswer::Draw);
    assert_eq!(
        get_scribble(&Some(scribble("a")), &Some(scribble("a")), true),
        ScribbleAnswer::Cached
    );
    assert_eq!(
        get_scribble(&Some(scribble("a")), &Some(scribble("b")), true),
        ScribbleAnswer::Draw
    );
}
