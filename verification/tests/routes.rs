use bson::oid::ObjectId;
use bson::Document;
use chrono::{TimeZone, Utc};
use proxy_server::http::{Header, ProxyRequest, Response};
use proxy_server::middlewares::Rejection;
use proxy_server::routes::{
    failure_response, forward, get_all_requests, get_requests_by_key, outbound, plain_text,
    rejection_response, relay, Envelope, UpstreamFailure,
};
use proxy_server::services::{Fetched, RequestService};

fn header(name: &str, value: &[u8]) -> Header {
    Header { name: name.to_string(), value: value.to_vec() }
}

fn lines(headers: &[Header]) -> Vec<(String, Vec<u8>)> {
    headers.iter().map(|h| (h.name.clone(), h.value.clone())).collect()
}

fn request(peer: Option<&str>, headers: Vec<Header>) -> ProxyRequest {
    ProxyRequest {
        method: "PATCH".to_string(),
        path: "/widgets/7".to_string(),
        query: Some("a=1&b=two".to_string()),
        headers,
        body: vec![0, 159, 146, 150, 255],
        peer_address: peer.map(|p| p.to_string()),
        credential: None,
    }
}

fn stored(method: &str) -> Document {
    let mut doc = Document::new();
    doc.insert("_id", ObjectId::with_bytes([7; 12]));
    doc.insert("method", method);
    doc.insert("path", "/p");
    doc.insert("authorization", "11111111-1111-1111-1111-111111111111");
    doc.insert("created_at", Utc.timestamp_millis_opt(5).unwrap());
    doc
}

#[test]
fn request_goes_out_as_it_came() {
    let headers = vec![header("Accept", b"*/*"), header("X-Raw", &[0xfe, 0xff])];
    let out = forward(request(None, headers), "http://10.0.0.9:8081").unwrap();
    assert_eq!(out.method, "PATCH");
    assert_eq!(out.url, "http://10.0.0.9:8081/widgets/7?a=1&b=two");
    assert_eq!(
        lines(&out.headers),
        vec![("Accept".to_string(), b"*/*".to_vec()), ("X-Raw".to_string(), vec![0xfe, 0xff])]
    );
    assert_eq!(out.body, vec![0, 159, 146, 150, 255]);
}

#[test]
fn known_peer_is_named_in_forwarded_for() {
    let out = forward(request(Some("203.0.113.5"), vec![header("Accept", b"*/*")]), "http://10.0.0.9:8081")
        .unwrap();
    assert_eq!(
        lines(&out.headers),
        vec![
            ("Accept".to_string(), b"*/*".to_vec()),
            ("x-forwarded-for".to_string(), b"203.0.113.5".to_vec()),
        ]
    );
}

#[test]
fn unknown_peer_leaves_forwarded_for_absent() {
    let out = forward(request(None, vec![header("Accept", b"*/*")]), "http://10.0.0.9:8081").unwrap();
    assert!(out.headers.iter().all(|h| !h.name.eq_ignore_ascii_case("x-forwarded-for")));
}

#[test]
fn forwarded_for_of_the_request_stays_before_that_of_the_peer() {
    let headers = vec![header("X-Forwarded-For", b"198.51.100.1"), header("Accept", b"*/*")];
    let out = forward(request(Some("203.0.113.5"), headers), "http://10.0.0.9:8081").unwrap();
    assert_eq!(
        lines(&out.headers),
        vec![
            ("X-Forwarded-For".to_string(), b"198.51.100.1".to_vec()),
            ("Accept".to_string(), b"*/*".to_vec()),
            ("x-forwarded-for".to_string(), b"203.0.113.5".to_vec()),
        ]
    );
}

#[test]
fn request_without_query_goes_to_the_path_alone() {
    let mut req = request(None, Vec::new());
    req.query = None;
    let out = forward(req, "http://10.0.0.9:8081/ignored?also=ignored").unwrap();
    assert_eq!(out.url, "http://10.0.0.9:8081/widgets/7");
}

#[test]
fn no_request_goes_out_to_what_is_no_address() {
    assert!(forward(request(None, Vec::new()), "upstream").is_none());
}

#[test]
fn response_is_relayed_without_connection_headers() {
    let res = Response {
        status: 418,
        headers: vec![
            header("content-type", b"text/teapot"),
            header("Connection", b"keep-alive"),
            header("set-cookie", b"a=1"),
            header("set-cookie", b"b=2"),
            header("connection", b"close"),
        ],
        body: vec![1, 2, 3, 0xff],
    };
    let given = relay(res);
    assert_eq!(given.status, 418);
    assert_eq!(
        lines(&given.headers),
        vec![
            ("content-type".to_string(), b"text/teapot".to_vec()),
            ("set-cookie".to_string(), b"a=1".to_vec()),
            ("set-cookie".to_string(), b"b=2".to_vec()),
        ]
    );
    assert_eq!(given.body, vec![1, 2, 3, 0xff]);
}

#[test]
fn unreachable_upstream_is_a_server_error() {
    let timeout = failure_response(&UpstreamFailure { timed_out: true, detail: "timeout".to_string() });
    assert_eq!(timeout.status, 504);
    assert_eq!(timeout.body, b"timeout".to_vec());
    assert_eq!(
        lines(&timeout.headers),
        vec![("content-type".to_string(), b"text/plain; charset=utf-8".to_vec())]
    );
    let refused =
        failure_response(&UpstreamFailure { timed_out: false, detail: "refused".to_string() });
    assert_eq!(refused.status, 500);
    assert_eq!(refused.body, b"refused".to_vec());
}

#[test]
fn rejection_is_answered_with_its_reason() {
    let r = rejection_response(Rejection::AuthRequired);
    assert_eq!(r.status, 401);
    assert_eq!(r.body, b"APIKey is required".to_vec());
    assert_eq!(
        lines(&r.headers),
        vec![("content-type".to_string(), b"text/plain; charset=utf-8".to_vec())]
    );
    assert_eq!(rejection_response(Rejection::AuthInvalid).body, b"APIKey could not be validated".to_vec());
    assert_eq!(rejection_response(Rejection::AuthDisabled).body, b"APIKey is disabled".to_vec());
    assert_eq!(rejection_response(Rejection::AuthDisabled).status, 401);
}

#[test]
fn records_are_handed_out_in_an_envelope() {
    let service = RequestService::new();
    let found: Vec<Fetched> = vec![Ok(stored("GET")), Ok(stored("PUT"))];
    let all = get_all_requests(&service, &found).unwrap();
    assert_eq!(all.status, 200);
    assert!(all.success);
    assert_eq!(all.payload.len(), 2);
    assert_eq!(all.payload[1].method, "PUT");
    let some = get_requests_by_key(&service, "11111111-1111-1111-1111-111111111111", &found).unwrap();
    assert_eq!(some.status, 200);
    assert!(some.success);
    assert_eq!(some.payload[0].method, "GET");
    let none = get_requests_by_key(&service, "k", &Vec::new()).unwrap();
    assert_eq!((none.status, none.success, none.payload.len()), (200, true, 0));
}

#[test]
fn failed_read_is_handed_out_as_an_error_body() {
    let service = RequestService::new();
    let found: Vec<Fetched> = vec![Err("down".to_string())];
    let e = get_all_requests(&service, &found).unwrap_err();
    assert_eq!(e.status, 500);
    assert_eq!(e.msg, "MongoDB Operation failed: down");
    assert!(!e.success);
    let found: Vec<Fetched> = vec![Ok(Document::new())];
    let e = get_requests_by_key(&service, "k", &found).unwrap_err();
    assert_eq!(e.status, 500);
    assert_eq!(e.msg, "Attempted to access an invalid field in BSON document: field is not present");
}

#[test]
fn successful_envelope_has_status_200() {
    let e = Envelope::success(17u8);
    assert_eq!((e.status, e.success, e.payload), (200, true, 17));
}

#[test]
fn request_goes_to_the_address_it_is_given() {
    let headers = vec![header("Accept", b"*/*")];
    let out = outbound(request(Some("2001:db8::1"), headers), "http://elsewhere/x?y=z".to_string());
    assert_eq!(out.method, "PATCH");
    assert_eq!(out.url, "http://elsewhere/x?y=z");
    assert_eq!(
        lines(&out.headers),
        vec![
            ("Accept".to_string(), b"*/*".to_vec()),
            ("x-forwarded-for".to_string(), b"2001:db8::1".to_vec()),
        ]
    );
    assert_eq!(out.body, vec![0, 159, 146, 150, 255]);
}

#[test]
fn plain_text_is_said_to_be_plain_text() {
    let r = plain_text(404, "nothing here \u{2014} sorry");
    assert_eq!(r.status, 404);
    assert_eq!(r.body, "nothing here \u{2014} sorry".as_bytes().to_vec());
    assert_eq!(
        lines(&r.headers),
        vec![("content-type".to_string(), b"text/plain; charset=utf-8".to_vec())]
    );
}
