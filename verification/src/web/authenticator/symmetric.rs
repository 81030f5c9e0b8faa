//! The variant that signs and verifies under one shared secret.

use vstd::prelude::*;
use vstd::utf8::encode_utf8;

use super::Authenticator;
use crate::web::codec::{SigningKey, VerifyingKey};
use crate::web::errors::token_error::{TokenError, TokenErrorView};
use crate::web::extractors::token::{
    outcome_view, standing, verification, PongaToken, Token,
};

verus! {

/// An authenticator that holds one secret and uses HMAC-SHA-512.
pub struct Symmetric {
    pub secret: String,
}

impl Symmetric {
    /// The authenticator for `secret`.
    pub fn new(secret: String) -> (authenticator: Self)
        ensures
            authenticator.secret@ == secret@,
    {
        Symmetric { secret }
    }

    /// The secret as the bytes that the codec signs and verifies with.
    pub open spec fn secret_bytes(&self) -> Seq<u8> {
        encode_utf8(self.secret@)
    }
}

impl Authenticator for Symmetric {
    open spec fn signing_key(&self) -> SigningKey {
        SigningKey::Hs512 { secret: self.secret_bytes() }
    }

    open spec fn verifying_key(&self) -> VerifyingKey {
        VerifyingKey::Hs512 { secret: self.secret_bytes() }
    }

    proof fn algorithms_match(&self) {
    }

    fn verify_jwt_at(&self, token: &str, aud: &[String], now: u64) -> (outcome: Result<
        Token<PongaToken>,
        TokenError,
    >)
        ensures
            !(outcome matches Err(TokenError::InvalidKeyError)),
    {
        Token::from_string_at(token, self.secret.as_str(), aud, now)
    }

    fn verify_jwt(&self, token: &str, aud: &[String]) -> (outcome: Result<
        Token<PongaToken>,
        TokenError,
    >)
        ensures
            !(outcome matches Err(TokenError::InvalidKeyError)),
    {
        let outcome = Token::from_string(token, self.secret.as_str(), aud);
        proof {
            let key = VerifyingKey::Hs512 { secret: encode_utf8(self.secret@) };
            let now = choose|now: u64|
                outcome_view(outcome) == #[trigger] verification(
                    key,
                    token@,
                    aud.deep_view(),
                    now,
                );
            assert(outcome_view(outcome) == verification(
                self.verifying_key(),
                token@,
                aud.deep_view(),
                now,
            ));
        }
        outcome
    }

    /// There is always a token. Under this authenticator it verifies back to
    /// `claims`, for any audience, until they expire, and is expired from
    /// then on; an authenticator that holds an RSA key refuses it.
    fn create_jwt(&self, claims: PongaToken) -> (outcome: Result<String, TokenError>)
        ensures
            outcome is Ok,
            outcome matches Ok(signed) ==> forall|audience: Seq<Seq<char>>, now: u64|
                #[trigger] verification(self.verifying_key(), signed@, audience, now) == standing(
                    claims@,
                    now,
                ),
            outcome matches Ok(signed) ==> forall|
                n: Seq<char>,
                e: Seq<char>,
                audience: Seq<Seq<char>>,
                now: u64,
            |
                match #[trigger] verification(VerifyingKey::Rs256 { n, e }, signed@, audience, now) {
                    Err(TokenErrorView::CryptoError(_)) => true,
                    Err(TokenErrorView::InvalidKeyError) => true,
                    _ => false,
                },
    {
        Token::sign(&claims, self.secret.as_str())
    }
}

} // verus!
