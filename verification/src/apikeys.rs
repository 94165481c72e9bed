//! The authority's own records: the API keys that it issues, what it writes
//! to its store for them, what it asks the store, and how it reads the
//! answers.

use crate::credential::{hyphenated, is_random_form, Credential};
use crate::document::{
    doc_fields, hex_of, insert, is_storable_time, new_document, no_fields, now_millis, Field,
    Value, MAX_MILLIS, MIN_MILLIS,
};
use crate::error::{ApiError, ApiErrorView, JsonError, JsonErrorView};
use crate::models::{api_key_in, ApiKey, ApiKeyView};
use crate::routes::Envelope;
use crate::services::Fetched;
use bson::Document;
use vstd::prelude::*;
use vstd::string::*;

verus! {

/// An API key that is yet to be written.
#[derive(Debug)]
pub struct NewApiKey {
    pub key: Credential,
}

impl NewApiKey {
    /// A new API key, with a credential drawn at random.
    pub fn new() -> (r: NewApiKey)
        ensures
            is_random_form(r.key.key),
    {
        NewApiKey { key: Credential::generate() }
    }
}

/// A change to an API key: whether it is disabled from now on.
#[derive(Clone, Copy, Debug)]
pub struct UpdateApiKey {
    pub key: Credential,
    pub disabled: bool,
}

/// The fields of the document that records a new key: its hyphenated text,
/// the two instants, and that it is not disabled.
pub open spec fn key_fields(key: Credential, updated_at: i64, created_at: i64) -> Map<
    Seq<char>,
    Field,
> {
    no_fields().insert("key"@, Field::Text(hyphenated(key.key))).insert(
        "updated_at"@,
        Field::DateTime(updated_at),
    ).insert("created_at"@, Field::DateTime(created_at)).insert("disabled"@, Field::Flag(false))
}

/// The fields of the query for one key by its text.
pub open spec fn by_key(key: Seq<char>) -> Map<Seq<char>, Field> {
    no_fields().insert("key"@, Field::Text(key))
}

/// The fields of the query for one key by the id that the store gave it.
pub open spec fn by_id(id: Seq<u8>) -> Map<Seq<char>, Field> {
    no_fields().insert("_id"@, Field::ObjectId(hex_of(id)))
}

/// The fields of the change that sets whether a key is disabled, and when
/// that was set.
pub open spec fn change_fields(disabled: bool, now: i64) -> Map<Seq<char>, Field> {
    no_fields().insert(
        "$set"@,
        Field::Document(
            no_fields().insert("updated_at"@, Field::DateTime(now)).insert(
                "disabled"@,
                Field::Flag(disabled),
            ),
        ),
    )
}

/// The keys of an answer. The items are read in order; the first that the
/// store failed to deliver, or that holds no key, decides the error.
pub open spec fn decoded_keys(found: Seq<Fetched>) -> Result<Seq<ApiKeyView>, ApiErrorView>
    decreases found.len(),
{
    if found.len() == 0 {
        Ok(Seq::empty())
    } else {
        match decoded_keys(found.drop_last()) {
            Err(e) => Err(e),
            Ok(keys) => match found.last() {
                Err(source) => Err(ApiErrorView::MongoDBOperationError { source: source@ }),
                Ok(doc) => match api_key_in(doc_fields(doc)) {
                    Err(e) => Err(ApiErrorView::InvalidFieldError(e)),
                    Ok(key) => Ok(keys.push(key)),
                },
            },
        }
    }
}

/// The key of an answer to a query for one key: an answer without a
/// document is the error of an empty result.
pub open spec fn decoded_key(found: Option<Document>) -> Result<ApiKeyView, ApiErrorView> {
    match found {
        None => Err(ApiErrorView::MongoDBEmptyResult),
        Some(doc) => match api_key_in(doc_fields(doc)) {
            Err(e) => Err(ApiErrorView::InvalidFieldError(e)),
            Ok(key) => Ok(key),
        },
    }
}

/// The keys of a list, in its order.
pub open spec fn key_views(keys: Seq<ApiKey>) -> Seq<ApiKeyView> {
    keys.map_values(|k: ApiKey| k@)
}

/// What was read, by its view.
pub open spec fn keys_result(r: Result<Vec<ApiKey>, ApiError>) -> Result<
    Seq<ApiKeyView>,
    ApiErrorView,
> {
    match r {
        Ok(keys) => Ok(key_views(keys@)),
        Err(e) => Err(e@),
    }
}

/// What was read, by its view.
pub open spec fn key_result(r: Result<ApiKey, ApiError>) -> Result<ApiKeyView, ApiErrorView> {
    match r {
        Ok(key) => Ok(key@),
        Err(e) => Err(e@),
    }
}

/// The authority's recorder of API keys.
#[derive(Clone, Copy, Debug)]
pub struct ApiKeyService {}

impl ApiKeyService {
    /// A recorder. It holds nothing: the store is reached by the caller.
    pub fn new() -> Self {
        ApiKeyService {  }
    }

    /// The document that records a new key, with the two instants given.
    /// There is none where a document cannot hold one of the instants.
    pub fn create_at(&self, apikey: &NewApiKey, updated_at: i64, created_at: i64) -> (r: Option<
        Document,
    >)
        ensures
            r is Some == (is_storable_time(updated_at) && is_storable_time(created_at)),
            r matches Some(doc) ==> doc_fields(doc) == key_fields(
                apikey.key,
                updated_at,
                created_at,
            ),
    {
        if updated_at < MIN_MILLIS || updated_at > MAX_MILLIS || created_at < MIN_MILLIS
            || created_at > MAX_MILLIS {
            return None;
        }
        let mut doc = new_document();
        insert(&mut doc, "key", Value::Text(apikey.key.to_hyphenated()));
        insert(&mut doc, "updated_at", Value::DateTime(updated_at));
        insert(&mut doc, "created_at", Value::DateTime(created_at));
        insert(&mut doc, "disabled", Value::Flag(false));
        Some(doc)
    }

    /// The document that records a new key now. The clock is read once for
    /// each of the two instants.
    pub fn create(&self, apikey: &NewApiKey) -> (doc: Document)
        ensures
            exists|updated_at: i64, created_at: i64|
                is_storable_time(updated_at) && is_storable_time(created_at) && doc_fields(doc)
                    == #[trigger] key_fields(apikey.key, updated_at, created_at),
    {
        let updated_at = now_millis();
        let created_at = now_millis();
        match self.create_at(apikey, updated_at, created_at) {
            Some(doc) => doc,
            None => new_document(),
        }
    }

    /// The query and the change that set whether a key is disabled, as of
    /// the instant `now`. There are none where a document cannot hold the
    /// instant.
    pub fn update_at(&self, apikey: UpdateApiKey, now: i64) -> (r: Option<(Document, Document)>)
        ensures
            r is Some == is_storable_time(now),
            r matches Some((filter, change)) ==> doc_fields(filter) == by_key(
                hyphenated(apikey.key.key),
            ) && doc_fields(change) == change_fields(apikey.disabled, now),
    {
        if now < MIN_MILLIS || now > MAX_MILLIS {
            return None;
        }
        let mut filter = new_document();
        insert(&mut filter, "key", Value::Text(apikey.key.to_hyphenated()));
        let mut set = new_document();
        insert(&mut set, "updated_at", Value::DateTime(now));
        insert(&mut set, "disabled", Value::Flag(apikey.disabled));
        let mut change = new_document();
        insert(&mut change, "$set", Value::Document(set));
        Some((filter, change))
    }

    /// The query and the change that set whether a key is disabled, as of
    /// now.
    pub fn update(&self, apikey: UpdateApiKey) -> (r: (Document, Document))
        ensures
            doc_fields(r.0) == by_key(hyphenated(apikey.key.key)),
            exists|now: i64|
                is_storable_time(now) && doc_fields(r.1) == #[trigger] change_fields(
                    apikey.disabled,
                    now,
                ),
    {
        let now = now_millis();
        match self.update_at(apikey, now) {
            Some(pair) => pair,
            None => (new_document(), new_document()),
        }
    }

    /// The query for the key that is to be deleted.
    pub fn delete_by_key(&self, key: &str) -> (filter: Document)
        ensures
            doc_fields(filter) == by_key(key@),
    {
        self.filter_by_key(key)
    }

    /// The query for one key by its text.
    pub fn filter_by_key(&self, key: &str) -> (filter: Document)
        ensures
            doc_fields(filter) == by_key(key@),
    {
        let mut filter = new_document();
        insert(&mut filter, "key", Value::Text(String::from_str(key)));
        filter
    }

    /// The query for one key by the twelve bytes of the id that the store
    /// gave it.
    pub fn filter_by_id(&self, id: [u8; 12]) -> (filter: Document)
        ensures
            doc_fields(filter) == by_id(id@),
    {
        let mut filter = new_document();
        insert(&mut filter, "_id", Value::ObjectId(id));
        filter
    }

    /// Reads the store's answer to the query for all keys.
    pub fn get_all(&self, found: &Vec<Fetched>) -> (r: Result<Vec<ApiKey>, ApiError>)
        ensures
            keys_result(r) == decoded_keys(found@),
    {
        let mut keys: Vec<ApiKey> = Vec::new();
        let mut i: usize = 0;
        assert(found@.take(0) =~= Seq::<Fetched>::empty());
        assert(key_views(keys@) =~= Seq::<ApiKeyView>::empty());
        while i < found.len()
            invariant
                i <= found@.len(),
                decoded_keys(found@.take(i as int)) == Ok::<Seq<ApiKeyView>, ApiErrorView>(
                    key_views(keys@),
                ),
            decreases found@.len() - i,
        {
            let ghost next = found@.take(i + 1);
            assert(next.drop_last() =~= found@.take(i as int));
            assert(next.last() == found@[i as int]);
            let ghost before = keys@;
            match &found[i] {
                Err(source) => {
                    proof {
                        lemma_key_error_stays(next, found@);
                    }
                    return Err(ApiError::MongoDBOperationError { source: source.clone() });
                },
                Ok(doc) => match ApiKey::from_bson_document(doc) {
                    Err(e) => {
                        proof {
                            lemma_key_error_stays(next, found@);
                        }
                        return Err(ApiError::InvalidFieldError(e));
                    },
                    Ok(key) => {
                        keys.push(key);
                        assert(key_views(keys@) =~= key_views(before).push(key@));
                    },
                },
            }
            i += 1;
        }
        assert(found@.take(i as int) =~= found@);
        Ok(keys)
    }

    /// Reads the store's answer to the query that
    /// [`ApiKeyService::filter_by_key`] makes for `key`: the key, or the
    /// error of an empty result where the store found none.
    #[allow(unused_variables)]
    pub fn get_by_key(&self, key: &str, found: Option<&Document>) -> (r: Result<ApiKey, ApiError>)
        ensures
            key_result(r) == decoded_key(
                match found {
                    Some(doc) => Some(*doc),
                    None => None,
                },
            ),
    {
        match found {
            None => Err(ApiError::MongoDBEmptyResult),
            Some(doc) => match ApiKey::from_bson_document(doc) {
                Err(e) => Err(ApiError::InvalidFieldError(e)),
                Ok(key) => Ok(key),
            },
        }
    }

    /// Reads the store's answer to the query that
    /// [`ApiKeyService::filter_by_id`] makes for `id`: the key, or the error
    /// of an empty result where the store found none.
    #[allow(unused_variables)]
    pub fn get_by_id(&self, id: [u8; 12], found: Option<&Document>) -> (r: Result<ApiKey, ApiError>)
        ensures
            key_result(r) == decoded_key(
                match found {
                    Some(doc) => Some(*doc),
                    None => None,
                },
            ),
    {
        match found {
            None => Err(ApiError::MongoDBEmptyResult),
            Some(doc) => match ApiKey::from_bson_document(doc) {
                Err(e) => Err(ApiError::InvalidFieldError(e)),
                Ok(key) => Ok(key),
            },
        }
    }
}

/// Once a prefix of an answer fails to decode, the whole answer fails with
/// the same error.
proof fn lemma_key_error_stays(prefix: Seq<Fetched>, found: Seq<Fetched>)
    requires
        prefix.len() <= found.len(),
        prefix == found.take(prefix.len() as int),
        decoded_keys(prefix) is Err,
    ensures
        decoded_keys(found) == decoded_keys(prefix),
    decreases found.len(),
{
    if prefix.len() < found.len() {
        assert(found.drop_last().take(prefix.len() as int) =~= prefix);
        lemma_key_error_stays(prefix, found.drop_last());
    } else {
        assert(prefix =~= found);
    }
}

/// How many keys a deletion removed.
#[derive(Clone, Copy, Debug, PartialEq, Eq, Structural)]
pub struct Deleted {
    pub count: i64,
}

/// The words of the error for a key that was to be deleted and was not
/// there.
pub open spec fn not_found_words(key: Seq<char>) -> Seq<char> {
    "Key not found: "@ + key
}

/// What the deletion of a key answers: an error of status 404 where the
/// store removed nothing, else the number of keys that it removed.
pub open spec fn deletion_of(key: Seq<char>, count: i64) -> Result<Deleted, JsonErrorView> {
    if count == 0 {
        Err(JsonErrorView { msg: not_found_words(key), status: 404, success: false })
    } else {
        Ok(Deleted { count })
    }
}

/// What was answered, by its view.
pub open spec fn deletion_view(r: Result<Envelope<Deleted>, JsonError>) -> Result<
    Deleted,
    JsonErrorView,
> {
    match r {
        Ok(envelope) => Ok(envelope.payload),
        Err(e) => Err(e@),
    }
}

/// Answers the deletion of the key with the text `key`, of which the store
/// says that it removed `count` keys.
pub fn delete_apikey(key: &str, count: i64) -> (r: Result<Envelope<Deleted>, JsonError>)
    ensures
        deletion_view(r) == deletion_of(key@, count),
        r matches Ok(envelope) ==> envelope.status == 200 && envelope.success,
{
    if count == 0 {
        Err(
            JsonError {
                msg: String::from_str("Key not found: ").concat(key),
                status: 404,
                success: false,
            },
        )
    } else {
        Ok(Envelope::success(Deleted { count }))
    }
}

/// The error for an insertion after which the store named no id.
pub fn insert_failed() -> (r: JsonError)
    ensures
        r@ == (JsonErrorView { msg: "Insert failed"@, status: 500, success: false }),
{
    JsonError { msg: String::from_str("Insert failed"), status: 500, success: false }
}

} // verus!
