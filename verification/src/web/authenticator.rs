//! The capability to sign and to verify tokens, in its two variants.

use vstd::prelude::*;

use super::codec::{SigningKey, VerifyingKey};
use super::errors::token_error::TokenError;
use super::extractors::token::{outcome_view, signing, signing_view, verification, PongaToken, Token};

pub mod asymmetric;
pub mod symmetric;

verus! {

/// The two algorithms of this service.
#[derive(Clone, Copy, Debug, PartialEq, Eq, Structural)]
pub enum SignatureAlgorithm {
    /// HMAC with SHA-512.
    Hs512,
    /// RSA PKCS#1 v1.5 with SHA-256.
    Rs256,
}

impl SigningKey {
    /// The algorithm that signs under this key.
    pub open spec fn algorithm(self) -> SignatureAlgorithm {
        match self {
            SigningKey::Hs512 { .. } => SignatureAlgorithm::Hs512,
            SigningKey::Rs256 { .. } => SignatureAlgorithm::Rs256,
        }
    }
}

impl VerifyingKey {
    /// The one algorithm that a verification under this key accepts.
    pub open spec fn algorithm(self) -> SignatureAlgorithm {
        match self {
            VerifyingKey::Hs512 { .. } => SignatureAlgorithm::Hs512,
            VerifyingKey::Rs256 { .. } => SignatureAlgorithm::Rs256,
        }
    }
}

/// Signs claims into tokens and verifies tokens back into claims.
///
/// An authenticator is built once and never changes: both keys are functions
/// of the value alone.
pub trait Authenticator {
    /// The key under which [`Authenticator::create_jwt`] signs.
    spec fn signing_key(&self) -> SigningKey;

    /// The key under which tokens are verified.
    spec fn verifying_key(&self) -> VerifyingKey;

    /// An authenticator signs and verifies with one and the same algorithm.
    proof fn algorithms_match(&self)
        ensures
            self.signing_key().algorithm() == self.verifying_key().algorithm(),
    ;

    /// Verifies `token` for the audience `aud` at the time `now`: the
    /// claims, or the failure, as [`verification`] gives them for this
    /// authenticator's key.
    fn verify_jwt_at(&self, token: &str, aud: &[String], now: u64) -> (outcome: Result<
        Token<PongaToken>,
        TokenError,
    >)
        ensures
            outcome_view(outcome) == verification(
                self.verifying_key(),
                token@,
                aud.deep_view(),
                now,
            ),
    ;

    /// Verifies `token` for the audience `aud` at the time that the clock
    /// shows: [`Authenticator::verify_jwt_at`] for that time.
    fn verify_jwt(&self, token: &str, aud: &[String]) -> (outcome: Result<
        Token<PongaToken>,
        TokenError,
    >)
        ensures
            exists|now: u64|
                outcome_view(outcome) == #[trigger] verification(
                    self.verifying_key(),
                    token@,
                    aud.deep_view(),
                    now,
                ),
    ;

    /// Signs `claims`: the token, or the codec's failure, as [`signing`]
    /// gives them for this authenticator's key.
    fn create_jwt(&self, claims: PongaToken) -> (outcome: Result<String, TokenError>)
        ensures
            signing_view(outcome) == signing(self.signing_key(), claims@),
    ;
}

} // verus!
