//! The authorization gate. It reads the credential that a request presents,
//! says where the authority is to be asked about it, and decides from the
//! authority's reply whether the request may pass.

use crate::credential::Credential;
use crate::http::{value_of, views, Header, HeaderView};
use crate::models::{authorization_text, presented, ApiKeyResponse, CredentialError};
use crate::text::bytes_as_text;
use crate::url::{opt_view, with_path, with_path_of};
use vstd::prelude::*;
use vstd::string::*;

verus! {

/// Why a request is turned away.
#[derive(Clone, Copy, Debug, PartialEq, Eq, Structural)]
pub enum Rejection {
    /// The request has no Authorization header.
    AuthRequired,
    /// The header presents no credential, or the authority could not
    /// confirm the one it presents.
    AuthInvalid,
    /// The authority knows the credential as disabled.
    AuthDisabled,
}

/// The status of every rejection.
pub const UNAUTHORIZED: u16 = 401;

/// The status with which the authority answers for a credential it knows.
pub const OK: u16 = 200;

/// The reason that a client is given with a rejection.
pub open spec fn reason_of(rejection: Rejection) -> Seq<char> {
    match rejection {
        Rejection::AuthRequired => "APIKey is required"@,
        Rejection::AuthInvalid => "APIKey could not be validated"@,
        Rejection::AuthDisabled => "APIKey is disabled"@,
    }
}

impl Rejection {
    /// The reason that a client is given.
    pub fn reason(&self) -> (r: &'static str)
        ensures
            r@ == reason_of(*self),
    {
        match self {
            Rejection::AuthRequired => "APIKey is required",
            Rejection::AuthInvalid => "APIKey could not be validated",
            Rejection::AuthDisabled => "APIKey is disabled",
        }
    }

    /// The status under which a rejection is sent.
    pub fn status(&self) -> (r: u16)
        ensures
            r == UNAUTHORIZED,
    {
        UNAUTHORIZED
    }
}

/// What came of asking the authority about a credential.
#[derive(Debug)]
pub enum AuthorityReply {
    /// The authority could not be reached.
    Unreachable,
    /// The authority answered. `body` is its answer where it sent one that
    /// could be read.
    Responded { status: u16, body: Option<ApiKeyResponse> },
}

/// What the authority says of a credential.
#[derive(Clone, Copy, Debug, PartialEq, Eq, Structural)]
pub struct ValidationResult {
    /// The authority was reached and answered for the credential.
    pub valid: bool,
    /// The authority knows the credential as disabled.
    pub disabled: bool,
}

/// What a reply says of the credential. Only a reply with status 200 and a
/// readable answer validates it.
pub open spec fn validation_of(reply: AuthorityReply) -> ValidationResult {
    match reply {
        AuthorityReply::Responded { status, body: Some(answer) } if status == OK => {
            ValidationResult { valid: true, disabled: answer.payload.disabled }
        },
        _ => ValidationResult { valid: false, disabled: false },
    }
}

/// How the authorization gate ends for a request.
#[derive(Clone, Copy, Debug, PartialEq, Eq, Structural)]
pub enum Outcome {
    Authorized(Credential),
    Rejected(Rejection),
}

/// The outcome for a credential of which the authority said `validation`.
pub open spec fn outcome_of(credential: Credential, validation: ValidationResult) -> Outcome {
    if !validation.valid {
        Outcome::Rejected(Rejection::AuthInvalid)
    } else if validation.disabled {
        Outcome::Rejected(Rejection::AuthDisabled)
    } else {
        Outcome::Authorized(credential)
    }
}

/// What the authorization gate does with a request before the authority is
/// asked.
#[derive(Debug)]
pub enum Inquiry {
    /// The request is turned away, and the authority is not asked.
    Rejected(Rejection),
    /// The authority is to be asked with a GET of `url`.
    Lookup { url: String, credential: Credential },
}

/// What an [`Inquiry`] holds, as the values that contracts speak of.
pub enum InquiryView {
    Rejected(Rejection),
    Lookup { url: Seq<char>, credential: Credential },
}

impl View for Inquiry {
    type V = InquiryView;

    open spec fn view(&self) -> InquiryView {
        match *self {
            Inquiry::Rejected(rejection) => InquiryView::Rejected(rejection),
            Inquiry::Lookup { url, credential } => InquiryView::Lookup { url: url@, credential },
        }
    }
}

/// The address at which the authority answers for the credential that
/// `text` presents: the authority's address with `/apikeys/` and the text
/// as its path.
pub open spec fn lookup_url_of(authority: Seq<char>, text: Seq<char>) -> Option<Seq<char>> {
    with_path_of(authority, "/apikeys/"@ + text)
}

/// What the authorization gate does with a request, told from what its
/// Authorization header presents and from the address at which the
/// authority answers for it.
///
/// Without a header the request is turned away as `AuthRequired`. With a
/// header that presents no credential, or a credential for which there is
/// no address, it is turned away as `AuthInvalid`. Else the authority is
/// asked at that address.
pub open spec fn inquiry_for(
    presented: Result<Option<Credential>, CredentialError>,
    url: Option<Seq<char>>,
) -> InquiryView {
    match presented {
        Ok(None) => InquiryView::Rejected(Rejection::AuthRequired),
        Err(_) => InquiryView::Rejected(Rejection::AuthInvalid),
        Ok(Some(credential)) => match url {
            None => InquiryView::Rejected(Rejection::AuthInvalid),
            Some(url) => InquiryView::Lookup { url, credential },
        },
    }
}

/// The address at which the authority answers for the credential that the
/// headers present, where they present one: the authority's address with
/// `/apikeys/` and the value of the Authorization header as its path.
pub open spec fn lookup_url_for(authority: Seq<char>, headers: Seq<HeaderView>) -> Option<
    Seq<char>,
> {
    match (presented(headers), value_of(headers, "authorization"@)) {
        (Ok(Some(_)), Some(value)) => lookup_url_of(authority, bytes_as_text(value)),
        _ => None,
    }
}

/// What the authorization gate does with a request that carries `headers`.
pub open spec fn inquiry_of(authority: Seq<char>, headers: Seq<HeaderView>) -> InquiryView {
    inquiry_for(presented(headers), lookup_url_for(authority, headers))
}

/// The authorization gate as it is configured: it knows the address of the
/// authority.
#[derive(Debug)]
pub struct Authorized {
    auth_url: String,
}

impl Authorized {
    /// The address of the authority.
    pub closed spec fn authority(&self) -> Seq<char> {
        self.auth_url@
    }

    /// A gate that asks the authority at `auth_url`.
    pub fn new(auth_url: &str) -> (r: Authorized)
        ensures
            r.authority() == auth_url@,
    {
        Authorized { auth_url: String::from_str(auth_url) }
    }

    /// The authorization gate for one worker: it asks the same authority.
    pub fn new_transform(&self) -> (r: AuthorizedMiddleware)
        ensures
            r.authority() == self.authority(),
    {
        AuthorizedMiddleware { auth_url: self.auth_url.clone() }
    }
}

/// The authorization gate at work.
#[derive(Debug)]
pub struct AuthorizedMiddleware {
    auth_url: String,
}

impl AuthorizedMiddleware {
    /// The address of the authority.
    pub closed spec fn authority(&self) -> Seq<char> {
        self.auth_url@
    }

    /// The address at which the authority answers for the credential that
    /// `text` presents. The text goes into the address as it stands.
    pub fn lookup_url(&self, text: &str) -> (r: Option<String>)
        ensures
            opt_view(r) == lookup_url_of(self.authority(), text@),
    {
        let path = String::from_str("/apikeys/").concat(text);
        with_path(self.auth_url.as_str(), path.as_str())
    }

    /// Decides what is done with a request before the authority is asked,
    /// from what its Authorization header presents and from the address at
    /// which the authority answers for it.
    pub fn inquire(
        presented: Result<Option<Credential>, CredentialError>,
        url: Option<String>,
    ) -> (r: Inquiry)
        ensures
            r@ == inquiry_for(presented, opt_view(url)),
    {
        match presented {
            Ok(None) => Inquiry::Rejected(Rejection::AuthRequired),
            Err(_) => Inquiry::Rejected(Rejection::AuthInvalid),
            Ok(Some(credential)) => match url {
                None => Inquiry::Rejected(Rejection::AuthInvalid),
                Some(url) => Inquiry::Lookup { url, credential },
            },
        }
    }

    /// Takes a request up: turns it away, or says where the authority is to
    /// be asked about the credential it presents.
    pub fn call(&self, headers: &Vec<Header>) -> (r: Inquiry)
        ensures
            r@ == inquiry_of(self.authority(), views(headers@)),
    {
        match authorization_text(headers) {
            Err(e) => AuthorizedMiddleware::inquire(Err(e), None),
            Ok(None) => AuthorizedMiddleware::inquire(Ok(None), None),
            Ok(Some(text)) => match Credential::parse(text.as_str()) {
                None => AuthorizedMiddleware::inquire(Err(CredentialError::Malformed), None),
                Some(credential) => AuthorizedMiddleware::inquire(
                    Ok(Some(credential)),
                    self.lookup_url(text.as_str()),
                ),
            },
        }
    }

    /// Reads what the authority's reply says of the credential.
    pub fn validate(reply: &AuthorityReply) -> (r: ValidationResult)
        ensures
            r == validation_of(*reply),
    {
        match reply {
            AuthorityReply::Responded { status, body: Some(answer) } => {
                if *status == OK {
                    ValidationResult { valid: true, disabled: answer.payload.disabled }
                } else {
                    ValidationResult { valid: false, disabled: false }
                }
            },
            _ => ValidationResult { valid: false, disabled: false },
        }
    }

    /// Decides on a request once the authority has been asked: it passes
    /// under its credential where the authority confirmed the credential
    /// and does not know it as disabled.
    pub fn conclude(credential: Credential, validation: ValidationResult) -> (r: Outcome)
        ensures
            r == outcome_of(credential, validation),
    {
        if !validation.valid {
            Outcome::Rejected(Rejection::AuthInvalid)
        } else if validation.disabled {
            Outcome::Rejected(Rejection::AuthDisabled)
        } else {
            Outcome::Authorized(credential)
        }
    }
}

} // verus!
