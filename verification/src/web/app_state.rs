//! What start-up decides before the service takes requests.

use vstd::prelude::*;

verus! {

/// Why the service could not be brought up.
#[derive(Debug, Clone, PartialEq, Eq)]
pub enum AppStateInitializationError {
    /// The key-set endpoint could not be reached or did not answer with
    /// success; holds the description of what went wrong.
    JwksUrlError(String),
    /// The key-set endpoint answered, but not with a key set; holds the
    /// description of what is wrong with the body.
    JwksParseError(String),
}

/// The mathematical value of an [`AppStateInitializationError`].
pub enum AppStateInitializationErrorView {
    JwksUrlError(Seq<char>),
    JwksParseError(Seq<char>),
}

impl View for AppStateInitializationError {
    type V = AppStateInitializationErrorView;

    open spec fn view(&self) -> AppStateInitializationErrorView {
        match *self {
            AppStateInitializationError::JwksUrlError(cause) => {
                AppStateInitializationErrorView::JwksUrlError(cause@)
            },
            AppStateInitializationError::JwksParseError(cause) => {
                AppStateInitializationErrorView::JwksParseError(cause@)
            },
        }
    }
}

/// The text that [`AppStateInitializationError::message`] gives for an error.
pub open spec fn initialization_error_message(error: AppStateInitializationErrorView) -> Seq<char> {
    match error {
        AppStateInitializationErrorView::JwksUrlError(cause) => {
            "error while querying the jwks uri: "@ + cause
        },
        AppStateInitializationErrorView::JwksParseError(cause) => {
            "error while parsing the jwk object: "@ + cause
        },
    }
}

impl AppStateInitializationError {
    /// The error as one line of text.
    pub fn message(&self) -> (text: String)
        ensures
            text@ == initialization_error_message(self@),
    {
        match self {
            AppStateInitializationError::JwksUrlError(cause) => {
                "error while querying the jwks uri: ".to_string().concat(cause.as_str())
            },
            AppStateInitializationError::JwksParseError(cause) => {
                "error while parsing the jwk object: ".to_string().concat(cause.as_str())
            },
        }
    }
}

} // verus!
