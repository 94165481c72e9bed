//! The records that the pipeline writes and reads: audit records, and the
//! API keys that the authority answers with.

use crate::credential::{credential_of, Credential};
use crate::document::{
    datetime_at, doc_fields, flag_at, get_bool, get_datetime, get_object_id, get_str, is_null,
    null_at, object_id_at, text_at, AccessError, Field,
};
use crate::http::{
    header_value, value_of, views, Header, HeaderView, ProxyRequest, ProxyRequestView,
};
use crate::text::{all_visible, bytes_as_text, visible_text};
use bson::Document;
use vstd::prelude::*;

verus! {

/// A stored audit record: one request that passed the authorization gate.
#[derive(Debug)]
pub struct Request {
    pub id: String,
    pub method: String,
    pub path: String,
    pub authorization: Option<Credential>,
    /// When the record was written, in milliseconds since the Unix epoch.
    pub created_at: i64,
}

/// What a [`Request`] holds, as the values that contracts speak of.
pub struct RequestView {
    pub id: Seq<char>,
    pub method: Seq<char>,
    pub path: Seq<char>,
    pub authorization: Option<Credential>,
    pub created_at: i64,
}

impl View for Request {
    type V = RequestView;

    open spec fn view(&self) -> RequestView {
        RequestView {
            id: self.id@,
            method: self.method@,
            path: self.path@,
            authorization: self.authorization,
            created_at: self.created_at,
        }
    }
}

/// The credential that a stored record carries: none where the field holds
/// null, else the one that its text spells. A field that is missing, is no
/// text, or spells no credential is an error.
pub open spec fn authorization_at(fields: Map<Seq<char>, Field>) -> Result<
    Option<Credential>,
    AccessError,
> {
    if null_at(fields, "authorization"@) {
        Ok(None)
    } else {
        match text_at(fields, "authorization"@) {
            Err(e) => Err(e),
            Ok(text) => match credential_of(text) {
                Some(c) => Ok(Some(c)),
                None => Err(AccessError::UnexpectedType),
            },
        }
    }
}

/// The audit record that a stored document holds. Its fields are read in
/// the order `authorization`, `_id`, `method`, `path`, `created_at`, and the
/// first that cannot be read decides the error.
pub open spec fn request_in(fields: Map<Seq<char>, Field>) -> Result<RequestView, AccessError> {
    match authorization_at(fields) {
        Err(e) => Err(e),
        Ok(authorization) => match object_id_at(fields, "_id"@) {
            Err(e) => Err(e),
            Ok(id) => match text_at(fields, "method"@) {
                Err(e) => Err(e),
                Ok(method) => match text_at(fields, "path"@) {
                    Err(e) => Err(e),
                    Ok(path) => match datetime_at(fields, "created_at"@) {
                        Err(e) => Err(e),
                        Ok(created_at) => Ok(
                            RequestView { id, method, path, authorization, created_at },
                        ),
                    },
                },
            },
        },
    }
}

/// What was decoded, by its view.
pub open spec fn request_result(r: Result<Request, AccessError>) -> Result<
    RequestView,
    AccessError,
> {
    match r {
        Ok(request) => Ok(request@),
        Err(e) => Err(e),
    }
}

impl Request {
    /// Decodes an audit record from a stored document.
    pub fn from_bson_document(doc: &Document) -> (r: Result<Request, AccessError>)
        ensures
            request_result(r) == request_in(doc_fields(*doc)),
    {
        let authorization = if is_null(doc, "authorization") {
            None
        } else {
            let key = match get_str(doc, "authorization") {
                Ok(key) => key,
                Err(e) => return Err(e),
            };
            match Credential::parse(key.as_str()) {
                Some(c) => Some(c),
                None => return Err(AccessError::UnexpectedType),
            }
        };
        let id = match get_object_id(doc, "_id") {
            Ok(id) => id,
            Err(e) => return Err(e),
        };
        let method = match get_str(doc, "method") {
            Ok(method) => method,
            Err(e) => return Err(e),
        };
        let path = match get_str(doc, "path") {
            Ok(path) => path,
            Err(e) => return Err(e),
        };
        let created_at = match get_datetime(doc, "created_at") {
            Ok(created_at) => created_at,
            Err(e) => return Err(e),
        };
        Ok(Request { id, method, path, authorization, created_at })
    }
}

/// An audit record that is yet to be written.
#[derive(Debug)]
pub struct NewRequest {
    pub method: String,
    pub path: String,
    pub authorization: Option<Credential>,
}

/// What a [`NewRequest`] holds, as the values that contracts speak of.
pub struct NewRequestView {
    pub method: Seq<char>,
    pub path: Seq<char>,
    pub authorization: Option<Credential>,
}

impl View for NewRequest {
    type V = NewRequestView;

    open spec fn view(&self) -> NewRequestView {
        NewRequestView {
            method: self.method@,
            path: self.path@,
            authorization: self.authorization,
        }
    }
}

/// Why an Authorization header presents no credential.
#[derive(Clone, Copy, Debug, PartialEq, Eq, Structural)]
pub enum CredentialError {
    /// The value holds a byte that is not visible ASCII.
    NotText,
    /// The value is text, but not the text of a credential.
    Malformed,
}

/// The credential that the headers present: none without an Authorization
/// header, else the one that the value of the first such header spells.
pub open spec fn presented(headers: Seq<HeaderView>) -> Result<
    Option<Credential>,
    CredentialError,
> {
    match value_of(headers, "authorization"@) {
        None => Ok(None),
        Some(value) => if !all_visible(value) {
            Err(CredentialError::NotText)
        } else {
            match credential_of(bytes_as_text(value)) {
                Some(c) => Ok(Some(c)),
                None => Err(CredentialError::Malformed),
            }
        },
    }
}

/// The audit record of a request.
pub open spec fn record_of(req: ProxyRequestView) -> Result<NewRequestView, CredentialError> {
    match presented(req.headers) {
        Err(e) => Err(e),
        Ok(authorization) => Ok(
            NewRequestView { method: req.method, path: req.path, authorization },
        ),
    }
}

/// What was made, by its view.
pub open spec fn record_result(r: Result<NewRequest, CredentialError>) -> Result<
    NewRequestView,
    CredentialError,
> {
    match r {
        Ok(record) => Ok(record@),
        Err(e) => Err(e),
    }
}

/// The text of the Authorization header, where there is such a header and
/// its value is text.
pub open spec fn authorization_text_of(headers: Seq<HeaderView>) -> Result<
    Option<Seq<char>>,
    CredentialError,
> {
    match value_of(headers, "authorization"@) {
        None => Ok(None),
        Some(value) => if all_visible(value) {
            Ok(Some(bytes_as_text(value)))
        } else {
            Err(CredentialError::NotText)
        },
    }
}

/// What was read, by its view.
pub open spec fn text_result(r: Result<Option<String>, CredentialError>) -> Result<
    Option<Seq<char>>,
    CredentialError,
> {
    match r {
        Ok(Some(text)) => Ok(Some(text@)),
        Ok(None) => Ok(None),
        Err(e) => Err(e),
    }
}

/// Reads the value of the first Authorization header as text. The value is
/// taken as it stands: no scheme is stripped from it.
pub fn authorization_text(headers: &Vec<Header>) -> (r: Result<Option<String>, CredentialError>)
    ensures
        text_result(r) == authorization_text_of(views(headers@)),
{
    match header_value(headers, "authorization") {
        None => Ok(None),
        Some(value) => match visible_text(value.as_slice()) {
            None => Err(CredentialError::NotText),
            Some(text) => Ok(Some(text)),
        },
    }
}

/// Reads the credential that a request presents in its Authorization
/// header.
pub fn presented_credential(headers: &Vec<Header>) -> (r: Result<
    Option<Credential>,
    CredentialError,
>)
    ensures
        r == presented(views(headers@)),
{
    match authorization_text(headers) {
        Err(e) => Err(e),
        Ok(None) => Ok(None),
        Ok(Some(text)) => match Credential::parse(text.as_str()) {
            Some(c) => Ok(Some(c)),
            None => Err(CredentialError::Malformed),
        },
    }
}

impl NewRequest {
    /// Makes the audit record of a request: its method, its path, and the
    /// credential that its Authorization header presents.
    pub fn from_http_request(req: &ProxyRequest) -> (r: Result<NewRequest, CredentialError>)
        ensures
            record_result(r) == record_of(req@),
    {
        match presented_credential(&req.headers) {
            Err(e) => Err(e),
            Ok(authorization) => Ok(
                NewRequest { method: req.method.clone(), path: req.path.clone(), authorization },
            ),
        }
    }
}

/// An API key as the authority describes it.
#[derive(Debug)]
pub struct ApiKey {
    pub id: String,
    pub key: Credential,
    pub disabled: bool,
    /// In milliseconds since the Unix epoch.
    pub created_at: i64,
    /// In milliseconds since the Unix epoch.
    pub updated_at: i64,
}

/// What an [`ApiKey`] holds, as the values that contracts speak of.
pub struct ApiKeyView {
    pub id: Seq<char>,
    pub key: Credential,
    pub disabled: bool,
    pub created_at: i64,
    pub updated_at: i64,
}

impl View for ApiKey {
    type V = ApiKeyView;

    open spec fn view(&self) -> ApiKeyView {
        ApiKeyView {
            id: self.id@,
            key: self.key,
            disabled: self.disabled,
            created_at: self.created_at,
            updated_at: self.updated_at,
        }
    }
}

/// The key that a stored document must spell.
pub open spec fn key_at(fields: Map<Seq<char>, Field>) -> Result<Credential, AccessError> {
    match text_at(fields, "key"@) {
        Err(e) => Err(e),
        Ok(text) => match credential_of(text) {
            Some(c) => Ok(c),
            None => Err(AccessError::UnexpectedType),
        },
    }
}

/// The API key that a stored document holds. Its fields are read in the
/// order `_id`, `key`, `disabled`, `created_at`, `updated_at`, and the first
/// that cannot be read decides the error.
pub open spec fn api_key_in(fields: Map<Seq<char>, Field>) -> Result<ApiKeyView, AccessError> {
    match object_id_at(fields, "_id"@) {
        Err(e) => Err(e),
        Ok(id) => match key_at(fields) {
            Err(e) => Err(e),
            Ok(key) => match flag_at(fields, "disabled"@) {
                Err(e) => Err(e),
                Ok(disabled) => match datetime_at(fields, "created_at"@) {
                    Err(e) => Err(e),
                    Ok(created_at) => match datetime_at(fields, "updated_at"@) {
                        Err(e) => Err(e),
                        Ok(updated_at) => Ok(
                            ApiKeyView { id, key, disabled, created_at, updated_at },
                        ),
                    },
                },
            },
        },
    }
}

/// What was decoded, by its view.
pub open spec fn api_key_result(r: Result<ApiKey, AccessError>) -> Result<ApiKeyView, AccessError> {
    match r {
        Ok(key) => Ok(key@),
        Err(e) => Err(e),
    }
}

impl ApiKey {
    /// Decodes an API key from a stored document.
    pub fn from_bson_document(doc: &Document) -> (r: Result<ApiKey, AccessError>)
        ensures
            api_key_result(r) == api_key_in(doc_fields(*doc)),
    {
        let id = match get_object_id(doc, "_id") {
            Ok(id) => id,
            Err(e) => return Err(e),
        };
        let text = match get_str(doc, "key") {
            Ok(text) => text,
            Err(e) => return Err(e),
        };
        let key = match Credential::parse(text.as_str()) {
            Some(c) => c,
            None => return Err(AccessError::UnexpectedType),
        };
        let disabled = match get_bool(doc, "disabled") {
            Ok(disabled) => disabled,
            Err(e) => return Err(e),
        };
        let created_at = match get_datetime(doc, "created_at") {
            Ok(created_at) => created_at,
            Err(e) => return Err(e),
        };
        let updated_at = match get_datetime(doc, "updated_at") {
            Ok(updated_at) => updated_at,
            Err(e) => return Err(e),
        };
        Ok(ApiKey { id, key, disabled, created_at, updated_at })
    }
}

/// The envelope in which the authority answers a lookup.
#[derive(Debug)]
pub struct ApiKeyResponse {
    pub status: u16,
    pub success: bool,
    pub payload: ApiKey,
}

/// What an [`ApiKeyResponse`] holds, as the values that contracts speak of.
pub struct ApiKeyResponseView {
    pub status: u16,
    pub success: bool,
    pub payload: ApiKeyView,
}

impl View for ApiKeyResponse {
    type V = ApiKeyResponseView;

    open spec fn view(&self) -> ApiKeyResponseView {
        ApiKeyResponseView { status: self.status, success: self.success, payload: self.payload@ }
    }
}

} // verus!
