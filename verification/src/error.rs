//! What can go wrong between the audit store and a caller of the read
//! queries, and the error body that such a caller is sent.

use crate::document::AccessError;
use vstd::prelude::*;
use vstd::std_specs::convert::FromSpecImpl;
use vstd::string::*;

verus! {

/// A failure of the audit recorder.
#[derive(Debug)]
pub enum ApiError {
    /// The store failed; `source` holds what it reported.
    MongoDBOperationError { source: String },
    /// A stored record lacks a field, or holds it in another kind.
    InvalidFieldError(AccessError),
    /// A query for one record found none.
    MongoDBEmptyResult,
}

/// What an [`ApiError`] holds, as the values that contracts speak of.
pub enum ApiErrorView {
    MongoDBOperationError { source: Seq<char> },
    InvalidFieldError(AccessError),
    MongoDBEmptyResult,
}

impl View for ApiError {
    type V = ApiErrorView;

    open spec fn view(&self) -> ApiErrorView {
        match *self {
            ApiError::MongoDBOperationError { source } => ApiErrorView::MongoDBOperationError {
                source: source@,
            },
            ApiError::InvalidFieldError(e) => ApiErrorView::InvalidFieldError(e),
            ApiError::MongoDBEmptyResult => ApiErrorView::MongoDBEmptyResult,
        }
    }
}

/// The words for a field that could not be read.
pub open spec fn access_words(e: AccessError) -> Seq<char> {
    match e {
        AccessError::NotPresent => "field is not present"@,
        AccessError::UnexpectedType => "field does not have the expected type"@,
    }
}

/// The words that introduce a field that could not be read.
pub open spec fn invalid_field_words() -> Seq<char> {
    "Attempted to access an invalid field in BSON document: "@
}

/// The message of a failure.
pub open spec fn message_of(e: ApiErrorView) -> Seq<char> {
    match e {
        ApiErrorView::MongoDBOperationError { source } => "MongoDB Operation failed: "@ + source,
        ApiErrorView::InvalidFieldError(e) => invalid_field_words() + access_words(e),
        ApiErrorView::MongoDBEmptyResult => "MongoDB query returned no results"@,
    }
}

/// The status under which a failure is reported: 404 where nothing was
/// found, 500 for every other failure.
pub open spec fn status_of(e: ApiErrorView) -> u16 {
    match e {
        ApiErrorView::MongoDBEmptyResult => 404,
        _ => 500,
    }
}

impl AccessError {
    /// The words for the error.
    pub fn describe(&self) -> (r: &'static str)
        ensures
            r@ == access_words(*self),
    {
        match self {
            AccessError::NotPresent => "field is not present",
            AccessError::UnexpectedType => "field does not have the expected type",
        }
    }
}

impl ApiError {
    /// The message of the failure, as it is logged and sent.
    pub fn message(&self) -> (r: String)
        ensures
            r@ == message_of(self@),
    {
        match self {
            ApiError::MongoDBOperationError { source } => {
                String::from_str("MongoDB Operation failed: ").concat(source.as_str())
            },
            ApiError::InvalidFieldError(e) => {
                String::from_str("Attempted to access an invalid field in BSON document: ").concat(
                    e.describe(),
                )
            },
            ApiError::MongoDBEmptyResult => String::from_str("MongoDB query returned no results"),
        }
    }

    /// The HTTP status under which the failure is reported.
    pub fn status(&self) -> (r: u16)
        ensures
            r == status_of(self@),
    {
        match self {
            ApiError::MongoDBEmptyResult => 404,
            _ => 500,
        }
    }
}

/// The body of an error response.
#[derive(Debug)]
pub struct JsonError {
    pub msg: String,
    pub status: u16,
    pub success: bool,
}

/// What a [`JsonError`] holds, as the values that contracts speak of.
pub struct JsonErrorView {
    pub msg: Seq<char>,
    pub status: u16,
    pub success: bool,
}

impl View for JsonError {
    type V = JsonErrorView;

    open spec fn view(&self) -> JsonErrorView {
        JsonErrorView { msg: self.msg@, status: self.status, success: self.success }
    }
}

/// The error body for a failure: its message, its status, and no success.
pub open spec fn json_error_of(e: ApiErrorView) -> JsonErrorView {
    JsonErrorView { msg: message_of(e), status: status_of(e), success: false }
}

impl FromSpecImpl<ApiError> for JsonError {
    open spec fn obeys_from_spec() -> bool {
        false
    }

    open spec fn from_spec(err: ApiError) -> JsonError {
        arbitrary()
    }
}

impl From<ApiError> for JsonError {
    fn from(err: ApiError) -> (r: JsonError)
        ensures
            r@ == json_error_of(err@),
    {
        JsonError { msg: err.message(), status: err.status(), success: false }
    }
}

} // verus!
