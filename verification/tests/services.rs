use bson::oid::ObjectId;
use bson::{Bson, Document};
use chrono::{TimeZone, Utc};
use proxy_server::credential::Credential;
use proxy_server::document::{AccessError, MAX_MILLIS, MIN_MILLIS};
use proxy_server::error::ApiError;
use proxy_server::models::{NewRequest, Request};
use proxy_server::services::{Fetched, RequestService};

const KEY: &str = "11111111-1111-1111-1111-111111111111";

fn record(authorization: Option<Credential>) -> NewRequest {
    NewRequest { method: "GET".to_string(), path: "/widgets".to_string(), authorization }
}

fn stored(method: &str, key: &str, id: u8) -> Document {
    let mut doc = Document::new();
    doc.insert("_id", ObjectId::with_bytes([id; 12]));
    doc.insert("method", method);
    doc.insert("path", "/p");
    doc.insert("authorization", key);
    doc.insert("created_at", Utc.timestamp_millis_opt(5).unwrap());
    doc
}

#[test]
fn written_document_holds_the_four_fields() {
    let key = Credential { key: 0x11111111_1111_1111_1111_111111111111 };
    let doc = RequestService::new().create_at(&record(Some(key)), 1_600_000_000_123).unwrap();
    assert_eq!(doc.len(), 4);
    assert_eq!(doc.get_str("method"), Ok("GET"));
    assert_eq!(doc.get_str("path"), Ok("/widgets"));
    assert_eq!(doc.get_str("authorization"), Ok(KEY));
    assert_eq!(doc.get_datetime("created_at").unwrap().timestamp_millis(), 1_600_000_000_123);
}

#[test]
fn written_document_holds_null_for_no_credential() {
    let doc = RequestService::new().create_at(&record(None), 0).unwrap();
    assert_eq!(doc.len(), 4);
    assert_eq!(doc.get("authorization"), Some(&Bson::Null));
    assert!(doc.is_null("authorization"));
}

#[test]
fn written_document_reads_back_once_it_has_an_id() {
    let key = Credential { key: 0xabcdef00_1234_4321_8765_0123456789ab };
    let mut doc = RequestService::new().create_at(&record(Some(key)), -12).unwrap();
    doc.insert("_id", ObjectId::with_bytes([0xa1; 12]));
    let read = Request::from_bson_document(&doc).unwrap();
    assert_eq!(read.id, "a1a1a1a1a1a1a1a1a1a1a1a1");
    assert_eq!(read.method, "GET");
    assert_eq!(read.path, "/widgets");
    assert_eq!(read.authorization, Some(key));
    assert_eq!(read.created_at, -12);
}

#[test]
fn instants_at_the_ends_of_the_range_are_stored() {
    let service = RequestService::new();
    let first = service.create_at(&record(None), MIN_MILLIS).unwrap();
    assert_eq!(first.get_datetime("created_at").unwrap().timestamp_millis(), MIN_MILLIS);
    let last = service.create_at(&record(None), MAX_MILLIS).unwrap();
    assert_eq!(last.get_datetime("created_at").unwrap().timestamp_millis(), MAX_MILLIS);
}

#[test]
fn instants_beyond_the_range_are_not_stored() {
    let service = RequestService::new();
    assert!(service.create_at(&record(None), MIN_MILLIS - 1).is_none());
    assert!(service.create_at(&record(None), MAX_MILLIS + 1).is_none());
    assert!(service.create_at(&record(None), i64::MIN).is_none());
    assert!(service.create_at(&record(None), i64::MAX).is_none());
}

#[test]
fn range_of_instants_is_that_of_the_date_type() {
    assert!(Utc.timestamp_millis_opt(MIN_MILLIS).single().is_some());
    assert!(Utc.timestamp_millis_opt(MIN_MILLIS - 1).single().is_none());
    assert!(Utc.timestamp_millis_opt(MAX_MILLIS).single().is_some());
    assert!(Utc.timestamp_millis_opt(MAX_MILLIS + 1).single().is_none());
}

#[test]
fn document_written_now_carries_the_current_instant() {
    let before = Utc::now().timestamp_millis();
    let doc = RequestService::new().create(&record(None));
    let after = Utc::now().timestamp_millis();
    let at = doc.get_datetime("created_at").unwrap().timestamp_millis();
    assert!(before <= at && at <= after);
    assert_eq!(doc.get_str("method"), Ok("GET"));
    assert_eq!(doc.get_str("path"), Ok("/widgets"));
    assert!(doc.is_null("authorization"));
    assert_eq!(doc.len(), 4);
}

#[test]
fn query_by_key_holds_the_text_of_the_key() {
    let filter = RequestService::new().filter_by_key(KEY);
    assert_eq!(filter.len(), 1);
    assert_eq!(filter.get_str("authorization"), Ok(KEY));
    let filter = RequestService::new().filter_by_key("ABC");
    assert_eq!(filter.get_str("authorization"), Ok("ABC"));
}

#[test]
fn answer_is_read_in_order() {
    let found: Vec<Fetched> =
        vec![Ok(stored("GET", KEY, 1)), Ok(stored("PUT", KEY, 2)), Ok(stored("POST", KEY, 3))];
    let records = RequestService::new().get_all(&found).unwrap();
    let methods: Vec<&str> = records.iter().map(|r| r.method.as_str()).collect();
    assert_eq!(methods, vec!["GET", "PUT", "POST"]);
    assert_eq!(records[1].id, "020202020202020202020202");
    assert_eq!(records[2].created_at, 5);
}

#[test]
fn empty_answer_gives_no_records() {
    assert!(RequestService::new().get_all(&Vec::new()).unwrap().is_empty());
    assert!(RequestService::new().get_by_key(KEY, &Vec::new()).unwrap().is_empty());
}

#[test]
fn answer_by_key_is_read_like_any_other() {
    let found: Vec<Fetched> = vec![Ok(stored("GET", KEY, 1)), Ok(stored("DELETE", KEY, 2))];
    let records = RequestService::new().get_by_key(KEY, &found).unwrap();
    assert_eq!(records.len(), 2);
    assert_eq!(records[1].method, "DELETE");
    assert_eq!(records[0].authorization, Credential::parse(KEY));
}

#[test]
fn store_failure_ends_the_read() {
    let found: Vec<Fetched> =
        vec![Ok(stored("GET", KEY, 1)), Err("cursor lost".to_string()), Ok(Document::new())];
    match RequestService::new().get_all(&found) {
        Err(ApiError::MongoDBOperationError { source }) => assert_eq!(source, "cursor lost"),
        other => panic!("unexpected: {:?}", other),
    }
}

#[test]
fn document_that_is_no_record_ends_the_read() {
    let mut broken = stored("GET", KEY, 2);
    broken.remove("path");
    let found: Vec<Fetched> =
        vec![Ok(stored("GET", KEY, 1)), Ok(broken), Err("never reached".to_string())];
    match RequestService::new().get_all(&found) {
        Err(ApiError::InvalidFieldError(e)) => assert_eq!(e, AccessError::NotPresent),
        other => panic!("unexpected: {:?}", other),
    }
    let mut odd = stored("GET", KEY, 2);
    odd.insert("created_at", 7i64);
    match RequestService::new().get_by_key(KEY, &vec![Ok(odd)]) {
        Err(ApiError::InvalidFieldError(e)) => assert_eq!(e, AccessError::UnexpectedType),
        other => panic!("unexpected: {:?}", other),
    }
}

#[test]
fn read_by_key_returns_the_records_of_that_key_only() {
    let other = "22222222-2222-2222-2222-222222222222";
    let store = vec![
        stored("GET", KEY, 1),
        stored("PUT", other, 2),
        stored("POST", KEY, 3),
        stored("HEAD", other, 4),
    ];
    let service = RequestService::new();
    for (key, expected) in [(KEY, vec!["GET", "POST"]), (other, vec!["PUT", "HEAD"])] {
        let filter = service.filter_by_key(key);
        let found: Vec<Fetched> = store
            .iter()
            .filter(|doc| filter.iter().all(|(name, value)| doc.get(name) == Some(value)))
            .cloned()
            .map(Ok)
            .collect();
        let records = service.get_by_key(key, &found).unwrap();
        let methods: Vec<&str> = records.iter().map(|r| r.method.as_str()).collect();
        assert_eq!(methods, expected);
        assert!(records.iter().all(|r| r.authorization == Credential::parse(key)));
    }
    let filter = service.filter_by_key("33333333-3333-3333-3333-333333333333");
    let found: Vec<Fetched> = store
        .iter()
        .filter(|doc| filter.iter().all(|(name, value)| doc.get(name) == Some(value)))
        .cloned()
        .map(Ok)
        .collect();
    assert!(service.get_by_key("33333333-3333-3333-3333-333333333333", &found).unwrap().is_empty());
}
