//! The audit recorder: what is written to the audit store for a request that
//! passed the authorization gate, what the store is asked, and how its
//! answers are read. The store itself is reached by the caller.

use crate::credential::{hyphenated, Credential};
use crate::document::{
    doc_fields, insert, is_storable_time, new_document, no_fields, now_millis, AccessError, Field,
    Value, MAX_MILLIS, MIN_MILLIS,
};
use crate::error::{ApiError, ApiErrorView};
use crate::models::{request_in, NewRequest, NewRequestView, Request, RequestView};
use bson::Document;
use vstd::prelude::*;
use vstd::string::*;

verus! {

/// What the store holds for a credential that may be missing: its
/// hyphenated text, or null.
pub open spec fn credential_field(authorization: Option<Credential>) -> Field {
    match authorization {
        Some(c) => Field::Text(hyphenated(c.key)),
        None => Field::Null,
    }
}

/// The fields of the document that records `req` at the instant `now`.
pub open spec fn record_fields(req: NewRequestView, now: i64) -> Map<Seq<char>, Field> {
    no_fields().insert("method"@, Field::Text(req.method)).insert(
        "path"@,
        Field::Text(req.path),
    ).insert("authorization"@, credential_field(req.authorization)).insert(
        "created_at"@,
        Field::DateTime(now),
    )
}

/// The record that is read back from what was written for `req` at `now`,
/// once the store has given it the id `id`.
pub open spec fn stored_record(req: NewRequestView, now: i64, id: Seq<char>) -> Result<
    RequestView,
    AccessError,
> {
    Ok(
        RequestView {
            id,
            method: req.method,
            path: req.path,
            authorization: req.authorization,
            created_at: now,
        },
    )
}

/// The fields of the query for the records of one credential: the
/// credential's text under `authorization`, and nothing else.
pub open spec fn key_filter(key: Seq<char>) -> Map<Seq<char>, Field> {
    no_fields().insert("authorization"@, Field::Text(key))
}

/// Whether a stored document answers the query for `key`: it holds exactly
/// that text as its credential.
pub open spec fn has_key(fields: Map<Seq<char>, Field>, key: Seq<char>) -> bool {
    fields.contains_key("authorization"@) && fields["authorization"@] == Field::Text(key)
}

/// One item of the store's answer: a document, or what the store reported
/// when it failed to deliver the next one.
pub type Fetched = Result<Document, String>;

/// The records of an answer. The items are read in order; the first that
/// the store failed to deliver, or that holds no record, decides the error.
pub open spec fn decoded(found: Seq<Fetched>) -> Result<Seq<RequestView>, ApiErrorView>
    decreases found.len(),
{
    if found.len() == 0 {
        Ok(Seq::empty())
    } else {
        match decoded(found.drop_last()) {
            Err(e) => Err(e),
            Ok(records) => match found.last() {
                Err(source) => Err(ApiErrorView::MongoDBOperationError { source: source@ }),
                Ok(doc) => match request_in(doc_fields(doc)) {
                    Err(e) => Err(ApiErrorView::InvalidFieldError(e)),
                    Ok(record) => Ok(records.push(record)),
                },
            },
        }
    }
}

/// The records of a list, in its order.
pub open spec fn record_views(records: Seq<Request>) -> Seq<RequestView> {
    records.map_values(|r: Request| r@)
}

/// What was read, by its view.
pub open spec fn read_result(r: Result<Vec<Request>, ApiError>) -> Result<
    Seq<RequestView>,
    ApiErrorView,
> {
    match r {
        Ok(records) => Ok(record_views(records@)),
        Err(e) => Err(e@),
    }
}

/// The audit recorder.
#[derive(Clone, Copy, Debug)]
pub struct RequestService {}

impl RequestService {
    /// A recorder. It holds nothing: the store is reached by the caller.
    pub fn new() -> Self {
        RequestService {  }
    }

    /// The document that records `req` at the instant `now`: method, path,
    /// credential and instant, each under its name. There is none for an
    /// instant that a document cannot hold. Once the store has added an id,
    /// the document reads back as the record of `req`.
    pub fn create_at(&self, req: &NewRequest, now: i64) -> (r: Option<Document>)
        ensures
            r is Some == is_storable_time(now),
            r matches Some(doc) ==> doc_fields(doc) == record_fields(req@, now),
            r matches Some(doc) ==> forall|id: Seq<char>|
                request_in(#[trigger] doc_fields(doc).insert("_id"@, Field::ObjectId(id)))
                    == stored_record(req@, now, id),
    {
        if now < MIN_MILLIS || now > MAX_MILLIS {
            return None;
        }
        let authorization = match req.authorization {
            Some(c) => Value::Text(c.to_hyphenated()),
            None => Value::Null,
        };
        let mut doc = new_document();
        insert(&mut doc, "method", Value::Text(req.method.clone()));
        insert(&mut doc, "path", Value::Text(req.path.clone()));
        insert(&mut doc, "authorization", authorization);
        insert(&mut doc, "created_at", Value::DateTime(now));
        proof {
            lemma_names_differ();
        }
        Some(doc)
    }

    /// The document that records `req` now.
    pub fn create(&self, req: &NewRequest) -> (doc: Document)
        ensures
            exists|now: i64|
                is_storable_time(now) && doc_fields(doc) == #[trigger] record_fields(req@, now),
    {
        let now = now_millis();
        match self.create_at(req, now) {
            Some(doc) => doc,
            None => new_document(),
        }
    }

    /// The query for the records of one credential.
    pub fn filter_by_key(&self, key: &str) -> (filter: Document)
        ensures
            doc_fields(filter) == key_filter(key@),
    {
        let mut filter = new_document();
        insert(&mut filter, "authorization", Value::Text(String::from_str(key)));
        filter
    }

    /// Reads the store's answer to the query for all records.
    pub fn get_all(&self, found: &Vec<Fetched>) -> (r: Result<Vec<Request>, ApiError>)
        ensures
            read_result(r) == decoded(found@),
    {
        let mut records: Vec<Request> = Vec::new();
        let mut i: usize = 0;
        assert(found@.take(0) =~= Seq::<Fetched>::empty());
        assert(record_views(records@) =~= Seq::<RequestView>::empty());
        while i < found.len()
            invariant
                i <= found@.len(),
                decoded(found@.take(i as int)) == Ok::<Seq<RequestView>, ApiErrorView>(
                    record_views(records@),
                ),
            decreases found@.len() - i,
        {
            let ghost seen = found@.take(i as int);
            let ghost next = found@.take(i + 1);
            assert(next.drop_last() =~= seen);
            assert(next.last() == found@[i as int]);
            let ghost before = records@;
            match &found[i] {
                Err(source) => {
                    proof {
                        lemma_error_stays(next, found@);
                    }
                    return Err(ApiError::MongoDBOperationError { source: source.clone() });
                },
                Ok(doc) => match Request::from_bson_document(doc) {
                    Err(e) => {
                        proof {
                            lemma_error_stays(next, found@);
                        }
                        return Err(ApiError::InvalidFieldError(e));
                    },
                    Ok(record) => {
                        records.push(record);
                        assert(record_views(records@) =~= record_views(before).push(record@));
                    },
                },
            }
            i += 1;
        }
        assert(found@.take(i as int) =~= found@);
        Ok(records)
    }

    /// Reads the store's answer to the query for the records of `key`.
    ///
    /// Where `found` is what a store delivers for the query that
    /// [`RequestService::filter_by_key`] makes for `key`, the records that
    /// are returned are exactly the stored records whose credential is
    /// `key`.
    #[allow(unused_variables)]
    pub fn get_by_key(&self, key: &str, found: &Vec<Fetched>) -> (r: Result<
        Vec<Request>,
        ApiError,
    >)
        ensures
            read_result(r) == decoded(found@),
            forall|stored: Seq<Document>|
                found@ == #[trigger] delivered(stored, key_filter(key@)) ==> is_exact_for(
                    stored,
                    key@,
                    read_result(r),
                ),
    {
        let r = self.get_all(found);
        proof {
            assert forall|stored: Seq<Document>|
                found@ == #[trigger] delivered(stored, key_filter(key@)) implies is_exact_for(
                stored,
                key@,
                read_result(r),
            ) by {
                law_read_by_key_is_exact(stored, key@);
            }
        }
        r
    }
}

/// The field names of a record are four different names, and none of them
/// is `_id`.
proof fn lemma_names_differ()
    ensures
        "method"@ != "path"@,
        "method"@ != "authorization"@,
        "method"@ != "created_at"@,
        "method"@ != "_id"@,
        "path"@ != "authorization"@,
        "path"@ != "created_at"@,
        "path"@ != "_id"@,
        "authorization"@ != "created_at"@,
        "authorization"@ != "_id"@,
        "created_at"@ != "_id"@,
{
    reveal_strlit("method");
    reveal_strlit("path");
    reveal_strlit("authorization");
    reveal_strlit("created_at");
    reveal_strlit("_id");
    assert("method"@.len() == 6);
    assert("path"@.len() == 4);
    assert("authorization"@.len() == 13);
    assert("created_at"@.len() == 10);
    assert("_id"@.len() == 3);
}

/// Once a prefix of an answer fails to decode, the whole answer fails with
/// the same error.
proof fn lemma_error_stays(prefix: Seq<Fetched>, found: Seq<Fetched>)
    requires
        prefix.len() <= found.len(),
        prefix == found.take(prefix.len() as int),
        decoded(prefix) is Err,
    ensures
        decoded(found) == decoded(prefix),
    decreases found.len(),
{
    if prefix.len() < found.len() {
        assert(found.drop_last().take(prefix.len() as int) =~= prefix);
        lemma_error_stays(prefix, found.drop_last());
    } else {
        assert(prefix =~= found);
    }
}

/// Whether a stored document answers a query: it holds every field of the
/// query, with the value that the query gives.
pub open spec fn answers(fields: Map<Seq<char>, Field>, query: Map<Seq<char>, Field>) -> bool {
    forall|name: Seq<char>| #[trigger]
        query.contains_key(name) ==> fields.contains_key(name) && fields[name] == query[name]
}

/// The documents of a store that answer a query, in the store's order.
pub open spec fn selected(stored: Seq<Document>, query: Map<Seq<char>, Field>) -> Seq<Document> {
    stored.filter(|doc: Document| answers(doc_fields(doc), query))
}

/// What a store delivers for a query when it does not fail: each document
/// that answers the query.
pub open spec fn delivered(stored: Seq<Document>, query: Map<Seq<char>, Field>) -> Seq<Fetched> {
    selected(stored, query).map_values(|doc: Document| Ok::<Document, String>(doc))
}

/// A document answers the query for a credential when, and only when, it
/// holds the text of that credential.
pub proof fn lemma_answers_key_filter(fields: Map<Seq<char>, Field>, key: Seq<char>)
    ensures
        answers(fields, key_filter(key)) == has_key(fields, key),
{
    let query = key_filter(key);
    assert(query.contains_key("authorization"@));
    assert(query["authorization"@] == Field::Text(key));
    if has_key(fields, key) {
        assert forall|name: Seq<char>| #[trigger] query.contains_key(name) implies (
        fields.contains_key(name) && fields[name] == query[name]) by {
            assert(name == "authorization"@);
        }
    }
}

/// The records of delivered documents are the records of the documents,
/// one for one and in their order; they cannot be read only where one of
/// the documents holds no record.
pub proof fn lemma_decoded_delivered(docs: Seq<Document>)
    ensures
        ({
            let read = decoded(docs.map_values(|doc: Document| Ok::<Document, String>(doc)));
            &&& read matches Ok(records) ==> records.len() == docs.len() && forall|i: int|
                0 <= i < docs.len() ==> request_in(doc_fields(docs[i])) == Ok::<
                    RequestView,
                    AccessError,
                >(#[trigger] records[i])
            &&& read is Err ==> exists|i: int|
                0 <= i < docs.len() && request_in(doc_fields(#[trigger] docs[i])) is Err
        }),
    decreases docs.len(),
{
    let wrap = |doc: Document| Ok::<Document, String>(doc);
    let found = docs.map_values(wrap);
    if docs.len() > 0 {
        let front = docs.drop_last();
        assert(found.drop_last() =~= front.map_values(wrap));
        assert(found.last() == wrap(docs.last()));
        lemma_decoded_delivered(front);
        match decoded(found.drop_last()) {
            Err(_) => {
                let i = choose|i: int|
                    0 <= i < front.len() && request_in(doc_fields(#[trigger] front[i])) is Err;
                assert(front[i] == docs[i]);
            },
            Ok(before) => {
                match request_in(doc_fields(docs.last())) {
                    Err(_) => {
                        assert(request_in(doc_fields(docs[docs.len() - 1])) is Err);
                    },
                    Ok(record) => {
                        let records = before.push(record);
                        assert forall|i: int| 0 <= i < docs.len() implies request_in(
                            doc_fields(docs[i]),
                        ) == Ok::<RequestView, AccessError>(#[trigger] records[i]) by {
                            if i < front.len() {
                                assert(front[i] == docs[i]);
                                assert(records[i] == before[i]);
                            }
                        }
                    },
                }
            },
        }
    }
}

/// Whether `read` is exactly what a read by credential owes for a store
/// that holds `stored`: the documents that the store selects for the query
/// are those that hold `key` as their credential, no other and each of
/// them; where they all hold records, `read` is those records, one for one
/// and in the store's order; and `read` is an error only where one of them
/// holds no record.
pub open spec fn is_exact_for(
    stored: Seq<Document>,
    key: Seq<char>,
    read: Result<Seq<RequestView>, ApiErrorView>,
) -> bool {
    let held = selected(stored, key_filter(key));
    &&& forall|i: int|
        0 <= i < held.len() ==> has_key(doc_fields(#[trigger] held[i]), key) && stored.contains(
            held[i],
        )
    &&& forall|i: int|
        0 <= i < stored.len() && has_key(doc_fields(stored[i]), key) ==> held.contains(
            #[trigger] stored[i],
        )
    &&& read matches Ok(records) ==> records.len() == held.len() && forall|i: int|
        0 <= i < held.len() ==> request_in(doc_fields(held[i])) == Ok::<RequestView, AccessError>(
            #[trigger] records[i],
        )
    &&& read is Err ==> exists|i: int|
        0 <= i < held.len() && request_in(doc_fields(#[trigger] held[i])) is Err
}

/// A read by credential returns exactly the stored records whose credential
/// is the one that was asked for, and none where no stored record has it.
///
/// The store is taken to answer the query that
/// [`RequestService::filter_by_key`] makes with those of its documents that
/// hold each field of the query. Then the documents that it delivers are
/// those that hold the text of the credential, no other and each of them, and
/// what [`RequestService::get_by_key`] reads from them are their records, one
/// for one and in the store's order.
pub proof fn law_read_by_key_is_exact(stored: Seq<Document>, key: Seq<char>)
    ensures
        is_exact_for(stored, key, decoded(delivered(stored, key_filter(key)))),
        (forall|i: int| 0 <= i < stored.len() ==> !has_key(doc_fields(#[trigger] stored[i]), key))
            ==> decoded(delivered(stored, key_filter(key))) == Ok::<
            Seq<RequestView>,
            ApiErrorView,
        >(Seq::empty()),
{
    let query = key_filter(key);
    let answering = |doc: Document| answers(doc_fields(doc), query);
    let held = selected(stored, query);
    assert(held == stored.filter(answering));
    assert forall|i: int| 0 <= i < held.len() implies has_key(doc_fields(#[trigger] held[i]), key)
        && stored.contains(held[i]) by {
        stored.lemma_filter_pred(answering, i);
        lemma_answers_key_filter(doc_fields(held[i]), key);
        assert(held.contains(held[i]));
        stored.lemma_filter_contains_rev(answering, held[i]);
    }
    assert forall|i: int|
        0 <= i < stored.len() && has_key(doc_fields(stored[i]), key) implies held.contains(
        #[trigger] stored[i],
    ) by {
        lemma_answers_key_filter(doc_fields(stored[i]), key);
        stored.lemma_filter_contains(answering, i);
    }
    lemma_decoded_delivered(held);
    if forall|i: int| 0 <= i < stored.len() ==> !has_key(doc_fields(#[trigger] stored[i]), key) {
        if held.len() > 0 {
            assert(has_key(doc_fields(held[0]), key) && stored.contains(held[0]));
            let j = choose|j: int| 0 <= j < stored.len() && stored[j] == held[0];
            assert(!has_key(doc_fields(stored[j]), key));
        }
        assert(delivered(stored, query) =~= Seq::<Fetched>::empty());
    }
}

} // verus!
