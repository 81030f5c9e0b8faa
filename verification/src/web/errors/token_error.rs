//! Why a token could not be signed or verified.

use vstd::prelude::*;

verus! {

/// A failure of signing or verification.
#[derive(Debug, Clone, PartialEq, Eq)]
pub enum TokenError {
    /// The token codec refused the input; the text says why.
    CryptoError(String),
    /// The key material cannot be made into a key.
    InvalidKeyError,
    /// The token's expiration is not after the time of verification.
    ExpiredTokenError,
}

/// The mathematical value of a [`TokenError`].
pub enum TokenErrorView {
    CryptoError(Seq<char>),
    InvalidKeyError,
    ExpiredTokenError,
}

impl View for TokenError {
    type V = TokenErrorView;

    open spec fn view(&self) -> TokenErrorView {
        match *self {
            TokenError::CryptoError(detail) => TokenErrorView::CryptoError(detail@),
            TokenError::InvalidKeyError => TokenErrorView::InvalidKeyError,
            TokenError::ExpiredTokenError => TokenErrorView::ExpiredTokenError,
        }
    }
}

/// The text that [`TokenError::message`] gives for an error.
pub open spec fn token_error_message(error: TokenErrorView) -> Seq<char> {
    match error {
        TokenErrorView::CryptoError(detail) => "jsonwebtoken crate: "@ + detail,
        TokenErrorView::InvalidKeyError => "invalid_key"@,
        TokenErrorView::ExpiredTokenError => "expired_token"@,
    }
}

impl TokenError {
    /// The error as one line of text.
    pub fn message(&self) -> (text: String)
        ensures
            text@ == token_error_message(self@),
    {
        match self {
            TokenError::CryptoError(detail) => {
                "jsonwebtoken crate: ".to_string().concat(detail.as_str())
            },
            TokenError::InvalidKeyError => "invalid_key".to_string(),
            TokenError::ExpiredTokenError => "expired_token".to_string(),
        }
    }
}

} // verus!
