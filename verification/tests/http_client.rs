use bvs_core::http::{
    dechunk, dechunk_checked, find, parse_response, parse_response_checked, parse_url, request_for,
    GetStep, HttpGet, Response, Url,
};

#[test]
fn parse_url_defaults_port_and_path() {
    let u = parse_url("https://example.com").unwrap();
    assert_eq!(u.host, "example.com");
    assert_eq!(u.port, 443);
    assert_eq!(u.path, "/");
}

#[test]
fn parse_url_reads_port_and_path() {
    let u = parse_url("https://api.github.com:8443/repos/fcornaire/balatro-vs/tags").unwrap();
    assert_eq!(u.host, "api.github.com");
    assert_eq!(u.port, 8443);
    assert_eq!(u.path, "/repos/fcornaire/balatro-vs/tags");
}

#[test]
fn parse_url_accepts_a_plus_sign_in_the_port() {
    let u = parse_url("https://h:+80/x").unwrap();
    assert_eq!(u.port, 80);
}

#[test]
fn parse_url_ignores_colons_in_the_path() {
    let u = parse_url("https://h/a:b").unwrap();
    assert_eq!(u.host, "h");
    assert_eq!(u.port, 443);
    assert_eq!(u.path, "/a:b");
}

#[test]
fn parse_url_rejects_other_schemes() {
    assert_eq!(
        parse_url("http://example.com/").unwrap_err(),
        "only https:// is supported: http://example.com/"
    );
}

#[test]
fn parse_url_rejects_bad_ports() {
    assert_eq!(parse_url("https://h:99999/x").unwrap_err(), "bad port in https://h:99999/x");
    assert_eq!(parse_url("https://h:/x").unwrap_err(), "bad port in https://h:/x");
    assert_eq!(parse_url("https://h:-1").unwrap_err(), "bad port in https://h:-1");
}

#[test]
fn find_gives_the_first_occurrence() {
    assert_eq!(find(b"abc\r\ndef\r\n", b"\r\n"), Some(3));
    assert_eq!(find(b"\r\n\r\n", b"\r\n"), Some(0));
    assert_eq!(find(b"abc", b"\r\n"), None);
    assert_eq!(find(b"ab", b"abc"), None);
}

#[test]
fn dechunk_joins_the_chunks() {
    let body = dechunk(b"4\r\nWiki\r\n5\r\npedia\r\n0\r\n\r\n").unwrap();
    assert_eq!(body, b"Wikipedia".to_vec());
}

#[test]
fn dechunk_reads_extensions_case_and_spaces() {
    assert_eq!(dechunk(b"4;name=value\r\nWiki\r\n0\r\n\r\n").unwrap(), b"Wiki".to_vec());
    assert_eq!(
        dechunk(b"A\r\n0123456789\r\n0\r\n\r\n").unwrap(),
        b"0123456789".to_vec()
    );
    assert_eq!(dechunk(b" 4 \r\nWiki\r\n0\r\n\r\n").unwrap(), b"Wiki".to_vec());
    assert_eq!(dechunk(b"+4\r\nWiki\r\n0\r\n\r\n").unwrap(), b"Wiki".to_vec());
}

#[test]
fn dechunk_reports_each_error() {
    assert_eq!(dechunk(b"").unwrap_err(), "malformed chunk header");
    assert_eq!(dechunk(b"4\r\nWiki\r\n").unwrap_err(), "malformed chunk header");
    assert_eq!(dechunk(b"zz\r\nWiki\r\n").unwrap_err(), "malformed chunk size");
    assert_eq!(dechunk(b"\xff\r\nWiki\r\n").unwrap_err(), "malformed chunk size");
    assert_eq!(dechunk(b"4\r\nWi").unwrap_err(), "truncated chunk");
}

#[test]
fn dechunk_checked_flags_chunks_out_of_range() {
    assert!(dechunk_checked(b"4\r\nWiki").is_none());
    assert!(dechunk_checked(b"4\r\nWiki\r").is_none());
    assert!(dechunk_checked(b"ffffffffffffffff\r\nx").is_none());
    assert!(matches!(dechunk_checked(b"0\r\n\r\n"), Some(Ok(ref b)) if b.is_empty()));
}

#[test]
fn parse_response_reads_a_plain_body() {
    let res = parse_response(b"HTTP/1.1 200 OK\r\nContent-Type: text/plain\r\n\r\nhello").unwrap();
    assert_eq!(res.status, 200);
    assert_eq!(res.location, None);
    assert_eq!(res.body, b"hello".to_vec());
}

#[test]
fn parse_response_reads_a_chunked_body() {
    let res = parse_response(
        b"HTTP/1.1 200 OK\r\nTransfer-Encoding: Chunked\r\n\r\n5\r\nhello\r\n0\r\n\r\n",
    )
    .unwrap();
    assert_eq!(res.body, b"hello".to_vec());
}

#[test]
fn parse_response_reads_the_location() {
    let res = parse_response(b"HTTP/1.1 302 Found\r\nlocation:  https://x/y \r\n\r\n").unwrap();
    assert_eq!(res.status, 302);
    assert_eq!(res.location, Some("https://x/y".to_string()));
    assert!(res.body.is_empty());
}

#[test]
fn parse_response_reports_malformed_heads() {
    assert_eq!(parse_response(b"garbage").unwrap_err(), "malformed HTTP response");
    assert_eq!(parse_response(b"HTTP/1.1\r\n\r\n").unwrap_err(), "malformed status line");
    assert_eq!(parse_response(b"HTTP/1.1 abc\r\n\r\n").unwrap_err(), "malformed status line");
}

#[test]
fn parse_response_checked_flags_chunks_out_of_range() {
    assert!(parse_response_checked(b"HTTP/1.1 200 OK\r\nTransfer-Encoding: chunked\r\n\r\n4\r\nWiki")
        .is_none());
}

#[test]
fn request_for_writes_the_request() {
    let url = Url { host: "h".to_string(), port: 443, path: "/p".to_string() };
    assert_eq!(
        request_for(&url),
        "GET /p HTTP/1.1\r\nHost: h\r\nUser-Agent: balatro-vs\r\nAccept: */*\r\nConnection: close\r\n\r\n"
    );
}

fn response(status: u16, location: Option<&str>, body: &[u8]) -> Response {
    Response { status, location: location.map(|l| l.to_string()), body: body.to_vec() }
}

#[test]
fn get_follows_redirects_to_the_body() {
    let (mut get, step) = HttpGet::start("https://a/b");
    match step {
        GetStep::Request(u) => {
            assert_eq!(u.host, "a");
            assert_eq!(u.path, "/b");
        }
        other => panic!("unexpected {other:?}"),
    }
    match get.answer(response(302, Some("https://c:444/d"), b"")) {
        GetStep::Request(u) => {
            assert_eq!(u.host, "c");
            assert_eq!(u.port, 444);
            assert_eq!(u.path, "/d");
        }
        other => panic!("unexpected {other:?}"),
    }
    assert_eq!(get.requests(), 2);
    assert!(matches!(get.answer(response(200, None, b"body")), GetStep::Done(b) if b == b"body".to_vec()));
}

#[test]
fn get_gives_up_after_six_requests() {
    let (mut get, _) = HttpGet::start("https://a/b");
    for _ in 0..5 {
        assert!(matches!(get.answer(response(301, Some("https://a/b"), b"")), GetStep::Request(_)));
    }
    match get.answer(response(301, Some("https://a/b"), b"")) {
        GetStep::Failed(e) => assert_eq!(e, "too many redirects from https://a/b"),
        other => panic!("unexpected {other:?}"),
    }
}

#[test]
fn get_reports_failures() {
    let (mut get, _) = HttpGet::start("https://a/b");
    match get.answer(response(404, None, b"not found")) {
        GetStep::Failed(e) => assert_eq!(e, "HTTP 404 for https://a/b: not found"),
        other => panic!("unexpected {other:?}"),
    }
    let (mut get, _) = HttpGet::start("https://a/b");
    match get.answer(response(307, None, b"")) {
        GetStep::Failed(e) => assert_eq!(e, "redirect without Location from https://a/b"),
        other => panic!("unexpected {other:?}"),
    }
    let (_, step) = HttpGet::start("ftp://x");
    assert!(matches!(step, GetStep::Failed(e) if e == "only https:// is supported: ftp://x"));
}

#[test]
fn get_cuts_error_bodies_to_two_hundred_bytes() {
    let (mut get, _) = HttpGet::start("https://a/b");
    let body = vec![b'x'; 300];
    match get.answer(response(500, None, &body)) {
        GetStep::Failed(e) => assert_eq!(e, format!("HTTP 500 for https://a/b: {}", "x".repeat(200))),
        other => panic!("unexpected {other:?}"),
    }
}

#[test]
fn on_response_reads_and_decides() {
    let (mut get, _) = HttpGet::start("https://a/b");
    let step = get.on_response(b"HTTP/1.1 200 OK\r\n\r\nok").unwrap();
    assert!(matches!(step, GetStep::Done(b) if b == b"ok".to_vec()));
    let (mut get, _) = HttpGet::start("https://a/b");
    let step = get.on_response(b"nonsense").unwrap();
    assert!(matches!(step, GetStep::Failed(e) if e == "malformed HTTP response"));
}
