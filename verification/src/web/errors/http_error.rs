//! What a client is told when a request is refused.

use vstd::prelude::*;

use super::token_error::{TokenError, TokenErrorView};

verus! {

/// Status of a request that the client got wrong.
pub const BAD_REQUEST: u16 = 400;

/// Status of a request whose credentials are no longer good.
pub const UNAUTHORIZED: u16 = 401;

/// Status of a failure on the service's side.
pub const INTERNAL_SERVER_ERROR: u16 = 500;

/// A refusal, as the request boundary knows it.
#[derive(Debug, Clone, PartialEq, Eq)]
pub enum HttpError {
    /// The body could not be read; holds the stable code and the status that
    /// the reader of the body proposed.
    ParsingError(String, u16),
    /// The body was read but some fields broke their rules; holds their names.
    InvalidFieldsError(Vec<String>),
    /// A status with a stable code.
    Simple(u16, String),
    /// The data store, or another collaborator, failed in a way that nothing
    /// here classifies.
    DatabaseError,
}

/// The mathematical value of an [`HttpError`].
pub enum HttpErrorView {
    ParsingError(Seq<char>, u16),
    InvalidFieldsError(Seq<Seq<char>>),
    Simple(u16, Seq<char>),
    DatabaseError,
}

impl View for HttpError {
    type V = HttpErrorView;

    open spec fn view(&self) -> HttpErrorView {
        match *self {
            HttpError::ParsingError(code, status) => HttpErrorView::ParsingError(code@, status),
            HttpError::InvalidFieldsError(fields) => HttpErrorView::InvalidFieldsError(
                fields.deep_view(),
            ),
            HttpError::Simple(status, code) => HttpErrorView::Simple(status, code@),
            HttpError::DatabaseError => HttpErrorView::DatabaseError,
        }
    }
}

/// The response that a refusal becomes: a status and the members of the
/// JSON body `{"success": false, "error": .., "fields": [..]}`, the last of
/// which is present only for broken fields.
#[derive(Debug, Clone, PartialEq, Eq)]
pub struct ErrorResponse {
    pub status: u16,
    pub success: bool,
    pub error: String,
    pub fields: Option<Vec<String>>,
}

/// The mathematical value of an [`ErrorResponse`].
pub struct ErrorResponseView {
    pub status: u16,
    pub success: bool,
    pub error: Seq<char>,
    pub fields: Option<Seq<Seq<char>>>,
}

impl View for ErrorResponse {
    type V = ErrorResponseView;

    open spec fn view(&self) -> ErrorResponseView {
        ErrorResponseView {
            status: self.status,
            success: self.success,
            error: self.error@,
            fields: match self.fields {
                Some(names) => Some(names.deep_view()),
                None => None,
            },
        }
    }
}

/// The response for each refusal.
///
/// A body that could not be read is a bad request whatever status came with
/// it; broken fields are a bad request that lists them; an unclassified
/// failure of a collaborator is an internal error with the code
/// `fatal_error` and nothing of the collaborator's own words.
pub open spec fn response_for(error: HttpErrorView) -> ErrorResponseView {
    match error {
        HttpErrorView::ParsingError(code, _) => ErrorResponseView {
            status: BAD_REQUEST,
            success: false,
            error: code,
            fields: None,
        },
        HttpErrorView::InvalidFieldsError(names) => ErrorResponseView {
            status: BAD_REQUEST,
            success: false,
            error: "invalid_fields"@,
            fields: Some(names),
        },
        HttpErrorView::Simple(status, code) => ErrorResponseView {
            status: status,
            success: false,
            error: code,
            fields: None,
        },
        HttpErrorView::DatabaseError => ErrorResponseView {
            status: INTERNAL_SERVER_ERROR,
            success: false,
            error: "fatal_error"@,
            fields: None,
        },
    }
}

/// The refusal for each token failure: a refused token is a bad request
/// whose code is `bad_token: ` followed by the codec's reason, an unusable
/// key is a bad request, an expired token is unauthorized.
pub open spec fn refusal_for(error: TokenErrorView) -> HttpErrorView {
    match error {
        TokenErrorView::CryptoError(detail) => HttpErrorView::Simple(
            BAD_REQUEST,
            "bad_token: "@ + detail,
        ),
        TokenErrorView::InvalidKeyError => HttpErrorView::Simple(BAD_REQUEST, "invalid_key"@),
        TokenErrorView::ExpiredTokenError => HttpErrorView::Simple(
            UNAUTHORIZED,
            "expired_token"@,
        ),
    }
}

/// An unclassified internal failure is answered with the status 500 and the
/// code `fatal_error`, and with nothing else.
pub proof fn lemma_internal_failure_is_fatal_error()
    ensures
        response_for(HttpErrorView::DatabaseError) == (ErrorResponseView {
            status: 500,
            success: false,
            error: "fatal_error"@,
            fields: None,
        }),
{
}

impl HttpError {
    /// Turns the refusal into the response that the client receives.
    pub fn into_response(self) -> (response: ErrorResponse)
        ensures
            response@ == response_for(self@),
    {
        match self {
            HttpError::ParsingError(text, _) => ErrorResponse {
                status: BAD_REQUEST,
                success: false,
                error: text,
                fields: None,
            },
            HttpError::InvalidFieldsError(names) => ErrorResponse {
                status: BAD_REQUEST,
                success: false,
                error: "invalid_fields".to_string(),
                fields: Some(names),
            },
            HttpError::Simple(status, code) => ErrorResponse {
                status: status,
                success: false,
                error: code,
                fields: None,
            },
            HttpError::DatabaseError => ErrorResponse {
                status: INTERNAL_SERVER_ERROR,
                success: false,
                error: "fatal_error".to_string(),
                fields: None,
            },
        }
    }

    /// The refusal for a body that is not the JSON that was asked for;
    /// `status` is what the reader of the body proposed.
    pub fn from_json_rejection(status: u16) -> (error: HttpError)
        ensures
            error@ == HttpErrorView::ParsingError("invalid_body"@, status),
    {
        HttpError::ParsingError("invalid_body".to_string(), status)
    }

    /// The refusal for a body whose fields `fields` broke their rules.
    pub fn from_validation_errors(fields: Vec<String>) -> (error: HttpError)
        ensures
            error@ == HttpErrorView::InvalidFieldsError(fields.deep_view()),
    {
        HttpError::InvalidFieldsError(fields)
    }

    /// The refusal for a background task that did not finish: an internal
    /// failure that nothing here classifies.
    pub fn from_join_error() -> (error: HttpError)
        ensures
            error@ == HttpErrorView::DatabaseError,
    {
        HttpError::DatabaseError
    }

    /// The refusal for a failure of the token codec that reached the
    /// boundary unclassified: an internal failure, of which the client is
    /// told nothing more.
    pub fn from_jwt_error() -> (error: HttpError)
        ensures
            error@ == HttpErrorView::DatabaseError,
    {
        HttpError::DatabaseError
    }

    /// The refusal for a request that the data store did not accept: an
    /// internal failure. The store's own description is for the log, not for
    /// the client, so it is not taken.
    pub fn from_request_error() -> (error: HttpError)
        ensures
            error@ == HttpErrorView::DatabaseError,
    {
        HttpError::DatabaseError
    }

    /// The refusal for a token failure; see [`refusal_for`].
    pub fn from_token_error(value: TokenError) -> (error: HttpError)
        ensures
            error@ == refusal_for(value@),
    {
        match value {
            TokenError::CryptoError(detail) => HttpError::Simple(
                BAD_REQUEST,
                "bad_token: ".to_string().concat(detail.as_str()),
            ),
            TokenError::InvalidKeyError => HttpError::Simple(
                BAD_REQUEST,
                "invalid_key".to_string(),
            ),
            TokenError::ExpiredTokenError => HttpError::Simple(
                UNAUTHORIZED,
                "expired_token".to_string(),
            ),
        }
    }
}

} // verus!
