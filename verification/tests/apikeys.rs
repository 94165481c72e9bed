use bson::oid::ObjectId;
use bson::{Bson, Document};
use chrono::{TimeZone, Utc};
use proxy_server::apikeys::{
    delete_apikey, insert_failed, ApiKeyService, Deleted, NewApiKey, UpdateApiKey,
};
use proxy_server::credential::Credential;
use proxy_server::document::{AccessError, MAX_MILLIS};
use proxy_server::error::ApiError;
use proxy_server::services::Fetched;

const KEY: &str = "936da01f-9abd-4d9d-80c7-02af85c822a8";
const CREDENTIAL: Credential = Credential { key: 0x936DA01F9ABD4D9D80C702AF85C822A8 };

fn stored(disabled: bool, id: u8) -> Document {
    let mut doc = Document::new();
    doc.insert("_id", ObjectId::with_bytes([id; 12]));
    doc.insert("key", KEY);
    doc.insert("disabled", disabled);
    doc.insert("created_at", Utc.timestamp_millis_opt(10).unwrap());
    doc.insert("updated_at", Utc.timestamp_millis_opt(20).unwrap());
    doc
}

#[test]
fn new_key_is_drawn_at_random() {
    let a = NewApiKey::new();
    let b = NewApiKey::new();
    assert_ne!(a.key, b.key);
    assert_eq!((a.key.key >> 76) & 0xf, 4);
}

#[test]
fn new_key_is_written_enabled() {
    let doc = ApiKeyService::new().create_at(&NewApiKey { key: CREDENTIAL }, 20, 10).unwrap();
    assert_eq!(doc.len(), 4);
    assert_eq!(doc.get_str("key"), Ok(KEY));
    assert_eq!(doc.get_bool("disabled"), Ok(false));
    assert_eq!(doc.get_datetime("updated_at").unwrap().timestamp_millis(), 20);
    assert_eq!(doc.get_datetime("created_at").unwrap().timestamp_millis(), 10);
    assert!(ApiKeyService::new().create_at(&NewApiKey { key: CREDENTIAL }, MAX_MILLIS + 1, 0).is_none());
    assert!(ApiKeyService::new().create_at(&NewApiKey { key: CREDENTIAL }, 0, MAX_MILLIS + 1).is_none());
}

#[test]
fn new_key_written_now_carries_the_current_instant() {
    let before = Utc::now().timestamp_millis();
    let doc = ApiKeyService::new().create(&NewApiKey { key: CREDENTIAL });
    let after = Utc::now().timestamp_millis();
    let updated = doc.get_datetime("updated_at").unwrap().timestamp_millis();
    let created = doc.get_datetime("created_at").unwrap().timestamp_millis();
    assert!(before <= updated && updated <= created && created <= after);
    assert_eq!(doc.get_str("key"), Ok(KEY));
}

#[test]
fn update_sets_the_flag_and_the_instant() {
    let change = UpdateApiKey { key: CREDENTIAL, disabled: true };
    let (filter, update) = ApiKeyService::new().update_at(change, 77).unwrap();
    assert_eq!(filter.len(), 1);
    assert_eq!(filter.get_str("key"), Ok(KEY));
    assert_eq!(update.len(), 1);
    let set = update.get_document("$set").unwrap();
    assert_eq!(set.len(), 2);
    assert_eq!(set.get_bool("disabled"), Ok(true));
    assert_eq!(set.get_datetime("updated_at").unwrap().timestamp_millis(), 77);
    assert!(ApiKeyService::new().update_at(change, i64::MIN).is_none());
    let (filter, update) = ApiKeyService::new().update(UpdateApiKey { key: CREDENTIAL, disabled: false });
    assert_eq!(filter.get_str("key"), Ok(KEY));
    assert_eq!(update.get_document("$set").unwrap().get_bool("disabled"), Ok(false));
}

#[test]
fn queries_for_one_key() {
    let service = ApiKeyService::new();
    let by_key = service.filter_by_key("some key");
    assert_eq!((by_key.len(), by_key.get_str("key")), (1, Ok("some key")));
    let delete = service.delete_by_key(KEY);
    assert_eq!((delete.len(), delete.get_str("key")), (1, Ok(KEY)));
    let id = [0x5f, 0x00, 0xab, 0xcd, 0xef, 0x01, 0x23, 0x45, 0x67, 0x89, 0x0a, 0xff];
    let by_id = service.filter_by_id(id);
    assert_eq!(by_id.len(), 1);
    assert_eq!(by_id.get("_id"), Some(&Bson::ObjectId(ObjectId::with_bytes(id))));
    assert_eq!(by_id.get_object_id("_id").unwrap().to_hex(), "5f00abcdef01234567890aff");
}

#[test]
fn keys_are_read_in_order() {
    let found: Vec<Fetched> = vec![Ok(stored(false, 1)), Ok(stored(true, 2))];
    let keys = ApiKeyService::new().get_all(&found).unwrap();
    assert_eq!(keys.len(), 2);
    assert_eq!(keys[0].id, "010101010101010101010101");
    assert!(!keys[0].disabled && keys[1].disabled);
    assert_eq!(keys[1].key, CREDENTIAL);
    assert!(ApiKeyService::new().get_all(&Vec::new()).unwrap().is_empty());
}

#[test]
fn first_failure_ends_the_read_of_keys() {
    let found: Vec<Fetched> = vec![Ok(stored(false, 1)), Err("gone".to_string()), Ok(Document::new())];
    match ApiKeyService::new().get_all(&found) {
        Err(ApiError::MongoDBOperationError { source }) => assert_eq!(source, "gone"),
        other => panic!("unexpected: {:?}", other),
    }
    let found: Vec<Fetched> = vec![Ok(Document::new()), Err("gone".to_string())];
    match ApiKeyService::new().get_all(&found) {
        Err(ApiError::InvalidFieldError(e)) => assert_eq!(e, AccessError::NotPresent),
        other => panic!("unexpected: {:?}", other),
    }
}

#[test]
fn one_key_is_read_or_missed() {
    let service = ApiKeyService::new();
    let doc = stored(true, 9);
    let key = service.get_by_key(KEY, Some(&doc)).unwrap();
    assert_eq!((key.key, key.disabled, key.created_at, key.updated_at), (CREDENTIAL, true, 10, 20));
    assert!(matches!(service.get_by_key(KEY, None), Err(ApiError::MongoDBEmptyResult)));
    assert!(matches!(service.get_by_id([9; 12], None), Err(ApiError::MongoDBEmptyResult)));
    assert_eq!(service.get_by_id([9; 12], Some(&doc)).unwrap().id, "090909090909090909090909");
    let mut broken = stored(true, 9);
    broken.insert("disabled", "yes");
    match service.get_by_id([9; 12], Some(&broken)) {
        Err(ApiError::InvalidFieldError(e)) => assert_eq!(e, AccessError::UnexpectedType),
        other => panic!("unexpected: {:?}", other),
    }
}

#[test]
fn deletion_that_removed_nothing_is_a_404() {
    let e = delete_apikey(KEY, 0).unwrap_err();
    assert_eq!(e.msg, "Key not found: 936da01f-9abd-4d9d-80c7-02af85c822a8");
    assert_eq!(e.status, 404);
    assert!(!e.success);
}

#[test]
fn deletion_answers_with_the_count() {
    let ok = delete_apikey(KEY, 1).unwrap();
    assert_eq!((ok.status, ok.success, ok.payload), (200, true, Deleted { count: 1 }));
    assert_eq!(delete_apikey(KEY, 3).unwrap().payload.count, 3);
}

#[test]
fn insertion_without_an_id_is_a_500() {
    let e = insert_failed();
    assert_eq!((e.msg.as_str(), e.status, e.success), ("Insert failed", 500, false));
}
