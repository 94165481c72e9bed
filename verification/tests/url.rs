use proxy_server::url::{target, with_path, with_query, MAX_URL_BYTES};

#[test]
fn path_and_query_of_the_request_are_put_in() {
    assert_eq!(
        target("http://127.0.0.1:8080", "/widgets", Some("id=7")),
        Some("http://127.0.0.1:8080/widgets?id=7".to_string())
    );
    assert_eq!(
        target("http://127.0.0.1:8080", "/widgets", None),
        Some("http://127.0.0.1:8080/widgets".to_string())
    );
    assert_eq!(target("http://127.0.0.1:8080", "/", None), Some("http://127.0.0.1:8080/".to_string()));
}

#[test]
fn path_and_query_of_the_base_are_not_kept() {
    assert_eq!(
        target("http://10.1.2.3:8080/base/path?own=1", "/widgets", Some("id=7")),
        Some("http://10.1.2.3:8080/widgets?id=7".to_string())
    );
    assert_eq!(
        target("http://10.1.2.3:8080/base/path?own=1", "/widgets", None),
        Some("http://10.1.2.3:8080/widgets".to_string())
    );
}

#[test]
fn with_path_keeps_the_query_of_the_base() {
    assert_eq!(
        with_path("http://127.0.0.1:9000/old?x=1", "/apikeys/abc"),
        Some("http://127.0.0.1:9000/apikeys/abc?x=1".to_string())
    );
    assert_eq!(
        with_path("http://127.0.0.1:9000", "/a b"),
        Some("http://127.0.0.1:9000/a%20b".to_string())
    );
}

#[test]
fn with_query_replaces_or_removes_the_query() {
    assert_eq!(
        with_query("http://127.0.0.1:9000/p?x=1", Some("y=2")),
        Some("http://127.0.0.1:9000/p?y=2".to_string())
    );
    assert_eq!(
        with_query("http://127.0.0.1:9000/p?x=1", None),
        Some("http://127.0.0.1:9000/p".to_string())
    );
}

#[test]
fn text_that_is_no_address_gives_none() {
    assert_eq!(target("not an address", "/widgets", None), None);
    assert_eq!(with_path("", "/widgets"), None);
    assert_eq!(with_query("127.0.0.1:80", Some("a=b")), None);
}

#[test]
fn text_beyond_the_limit_gives_none() {
    let long = "a".repeat(MAX_URL_BYTES + 1);
    let path = format!("/{}", "a".repeat(MAX_URL_BYTES - 1));
    assert_eq!(path.len(), MAX_URL_BYTES);
    assert_eq!(with_path("http://127.0.0.1:9000", &long), None);
    assert_eq!(with_query("http://127.0.0.1:9000", Some(&long)), None);
    assert_eq!(target("http://127.0.0.1:9000", "/p", Some(&long)), None);
    assert_eq!(target(&format!("http://127.0.0.1/{}", long), "/p", None), None);
    assert_eq!(
        with_path("http://127.0.0.1:9000", &path),
        Some(format!("http://127.0.0.1:9000{}", path))
    );
}
