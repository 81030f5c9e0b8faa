//! Tokens and the claims they carry.

use vstd::prelude::*;

use vstd::string::StringSliceAdditionalSpecFns;

use crate::web::codec::{
    decode_hs512, decode_rs256, encode_hs512, encode_rs256, jwt_decoding,
    jwt_encoding, rsa_components_accepted, Decoding, DecodingView, RawClaims, RawClaimsView,
    SigningKey, VerifyingKey,
};
use crate::web::authenticator::Authenticator;
use crate::web::clock::current_timestamp;
use crate::web::errors::http_error::{refusal_for, HttpError, HttpErrorView};
use crate::web::errors::token_error::{TokenError, TokenErrorView};
use crate::web::extractors::header::{bearer, bearer_extraction, header_view};

verus! {

/// The claims of this service's tokens.
#[derive(Debug, Clone, PartialEq, Eq)]
pub struct PongaToken {
    /// Expiration, in seconds since the Unix epoch.
    pub exp: usize,
    /// Time of issue, in seconds since the Unix epoch.
    pub iat: usize,
    /// Issuer.
    pub iss: String,
    /// Subject: the user's id.
    pub sub: String,
}

/// The mathematical value of a [`PongaToken`].
pub struct ClaimsView {
    pub exp: nat,
    pub iat: nat,
    pub iss: Seq<char>,
    pub sub: Seq<char>,
}

impl View for PongaToken {
    type V = ClaimsView;

    open spec fn view(&self) -> ClaimsView {
        ClaimsView { exp: self.exp as nat, iat: self.iat as nat, iss: self.iss@, sub: self.sub@ }
    }
}

/// Claims that have been verified.
#[derive(Debug, Clone, PartialEq, Eq)]
pub struct Token<T>(pub T);

/// The mathematical value of a verification's result: the claims, or the
/// failure.
pub open spec fn outcome_view(outcome: Result<Token<PongaToken>, TokenError>) -> Result<
    ClaimsView,
    TokenErrorView,
> {
    match outcome {
        Ok(token) => Ok(token.0@),
        Err(error) => Err(error@),
    }
}

/// The claims that a payload holds, if it holds all four and its two times
/// fit this machine's `usize`.
pub open spec fn claims_of(raw: RawClaimsView) -> Option<ClaimsView> {
    if raw.exp is Some && raw.iat is Some && raw.iss is Some && raw.sub is Some
        && raw.exp->0 <= usize::MAX && raw.iat->0 <= usize::MAX {
        Some(
            ClaimsView {
                exp: raw.exp->0 as nat,
                iat: raw.iat->0 as nat,
                iss: raw.iss->0,
                sub: raw.sub->0,
            },
        )
    } else {
        None
    }
}

/// What is said of a payload that does not hold all four claims.
pub open spec fn incomplete_claims() -> Seq<char> {
    "incomplete claims"@
}

/// The result for a payload at the time `now`: without all four claims it is
/// refused; with an expiration that is not after `now` it is expired;
/// otherwise its claims are the result.
pub open spec fn judgement(raw: RawClaimsView, now: u64) -> Result<ClaimsView, TokenErrorView> {
    match claims_of(raw) {
        None => Err(TokenErrorView::CryptoError(incomplete_claims())),
        Some(claims) => if claims.exp <= now {
            Err(TokenErrorView::ExpiredTokenError)
        } else {
            Ok(claims)
        },
    }
}

/// The result for what the codec made of a token, at the time `now`, when a
/// refused audience is taken as it stands.
pub open spec fn verdict(decoding: DecodingView, now: u64) -> Result<ClaimsView, TokenErrorView> {
    match decoding {
        DecodingView::UnusableKey => Err(TokenErrorView::InvalidKeyError),
        DecodingView::Claims(raw) => judgement(raw, now),
        DecodingView::WrongAudience(detail) => Err(TokenErrorView::CryptoError(detail)),
        DecodingView::Rejected(detail) => Err(TokenErrorView::CryptoError(detail)),
    }
}

/// The failure for a token whose audience was refused with `detail`, where
/// `lenient` is what the codec makes of the same token with the audience
/// left aside: what is wrong with the claims themselves comes first, so an
/// expired token is expired whatever its audience.
pub open spec fn audience_refusal(detail: Seq<char>, lenient: DecodingView, now: u64)
    -> TokenErrorView {
    match lenient {
        DecodingView::Claims(raw) => match judgement(raw, now) {
            Ok(_) => TokenErrorView::CryptoError(detail),
            Err(error) => error,
        },
        _ => TokenErrorView::CryptoError(detail),
    }
}

/// How claims stand at the time `now`: they are good while their expiration
/// is after `now`, and expired from then on.
pub open spec fn standing(claims: ClaimsView, now: u64) -> Result<ClaimsView, TokenErrorView> {
    if claims.exp <= now {
        Err(TokenErrorView::ExpiredTokenError)
    } else {
        Ok(claims)
    }
}

/// The result of verifying `token` under `key` for `audience` at the time
/// `now`.
///
/// The codec is asked with the audience enforced. What it accepts is judged
/// by [`verdict`]; where it refuses the audience alone it is asked again with
/// the audience left aside, and [`audience_refusal`] names the failure.
pub open spec fn verification(
    key: VerifyingKey,
    token: Seq<char>,
    audience: Seq<Seq<char>>,
    now: u64,
) -> Result<ClaimsView, TokenErrorView> {
    match jwt_decoding(key, token, audience, true) {
        DecodingView::WrongAudience(detail) => Err(
            audience_refusal(detail, jwt_decoding(key, token, audience, false), now),
        ),
        strict => verdict(strict, now),
    }
}

/// The result of signing `claims` under `key`: the codec's token, or its
/// description of the failure as a [`TokenErrorView::CryptoError`].
pub open spec fn signing(key: SigningKey, claims: ClaimsView) -> Result<Seq<char>, TokenErrorView> {
    match jwt_encoding(key, claims) {
        Ok(token) => Ok(token),
        Err(detail) => Err(TokenErrorView::CryptoError(detail)),
    }
}

/// The mathematical value of a signing's result.
pub open spec fn signing_view(outcome: Result<String, TokenError>) -> Result<
    Seq<char>,
    TokenErrorView,
> {
    match outcome {
        Ok(token) => Ok(token@),
        Err(error) => Err(error@),
    }
}

/// The one audience that this service verifies tokens for: `ponga`.
pub open spec fn service_audience() -> Seq<Seq<char>> {
    seq!["ponga"@]
}

/// What a request comes to under an authenticator with the key `key`, at
/// the time `now`, given its `Authorization` header, absent or with the
/// value given: the claims of its bearer token, verified for the service's
/// audience, or the refusal, from the header or from the verification.
pub open spec fn request_outcome(key: VerifyingKey, header: Option<Seq<u8>>, now: u64) -> Result<
    ClaimsView,
    HttpErrorView,
> {
    match bearer_extraction(header) {
        Err(refusal) => Err(refusal),
        Ok(token) => match verification(key, token, service_audience(), now) {
            Ok(claims) => Ok(claims),
            Err(error) => Err(refusal_for(error)),
        },
    }
}

/// The mathematical value of an extraction's result: the claims, or the
/// refusal.
pub open spec fn request_view(outcome: Result<Token<PongaToken>, HttpError>) -> Result<
    ClaimsView,
    HttpErrorView,
> {
    match outcome {
        Ok(token) => Ok(token.0@),
        Err(refusal) => Err(refusal@),
    }
}

/// The claims of a token whose key, structure, algorithm and signature are
/// in order, whatever its audience.
pub open spec fn payload(key: VerifyingKey, token: Seq<char>, audience: Seq<Seq<char>>) -> Option<
    RawClaimsView,
> {
    match jwt_decoding(key, token, audience, true) {
        DecodingView::Claims(raw) => Some(raw),
        DecodingView::WrongAudience(_) => match jwt_decoding(key, token, audience, false) {
            DecodingView::Claims(raw) => Some(raw),
            _ => None,
        },
        _ => None,
    }
}

/// A token in order whose expiration is not after the time of verification
/// is expired: whatever its audience, and whatever else it claims.
pub proof fn lemma_expired_token_is_expired(
    key: VerifyingKey,
    token: Seq<char>,
    audience: Seq<Seq<char>>,
    now: u64,
)
    requires
        payload(key, token, audience) matches Some(raw) && claims_of(raw) matches Some(claims)
            && claims.exp <= now,
    ensures
        verification(key, token, audience, now) == Err::<ClaimsView, TokenErrorView>(
            TokenErrorView::ExpiredTokenError,
        ),
{
}

/// A token whose audience the codec refuses is not accepted, at any time.
pub proof fn lemma_wrong_audience_is_refused(
    key: VerifyingKey,
    token: Seq<char>,
    audience: Seq<Seq<char>>,
    now: u64,
)
    requires
        jwt_decoding(key, token, audience, true) is WrongAudience,
    ensures
        verification(key, token, audience, now) is Err,
{
}

/// Claims are accepted only from a token that the codec accepts for the
/// audience, only if they are the token's own, and only before they expire.
pub proof fn lemma_accepted_claims_are_live(
    key: VerifyingKey,
    token: Seq<char>,
    audience: Seq<Seq<char>>,
    now: u64,
)
    requires
        verification(key, token, audience, now) is Ok,
    ensures
        jwt_decoding(key, token, audience, true) matches DecodingView::Claims(raw) && claims_of(raw)
            == Some(verification(key, token, audience, now)->Ok_0),
        verification(key, token, audience, now)->Ok_0.exp > now,
{
}

/// The claims of a token that the codec accepts for the audience are
/// handed back as they stand, at any time before they expire.
pub proof fn lemma_live_claims_are_accepted(
    key: VerifyingKey,
    token: Seq<char>,
    audience: Seq<Seq<char>>,
    now: u64,
)
    requires
        jwt_decoding(key, token, audience, true) matches DecodingView::Claims(raw) && claims_of(raw)
            matches Some(claims) && claims.exp > now,
    ensures
        verification(key, token, audience, now) == Ok::<ClaimsView, TokenErrorView>(
            claims_of(jwt_decoding(key, token, audience, true)->Claims_0)->0,
        ),
{
}

/// A request whose bearer token fails verification is refused with the
/// refusal of that very failure: it is neither dropped nor replaced.
pub proof fn lemma_request_is_refused_as_its_token(
    key: VerifyingKey,
    value: Seq<u8>,
    now: u64,
)
    requires
        bearer_extraction(Some(value)) matches Ok(token) && verification(
            key,
            token,
            service_audience(),
            now,
        ) is Err,
    ensures
        request_outcome(key, Some(value), now) == Err::<ClaimsView, HttpErrorView>(
            refusal_for(
                verification(
                    key,
                    bearer_extraction(Some(value))->Ok_0,
                    service_audience(),
                    now,
                )->Err_0,
            ),
        ),
{
}

/// A request whose bearer token is expired is unauthorized, with the code
/// `expired_token`.
pub proof fn lemma_expired_request_is_unauthorized(key: VerifyingKey, value: Seq<u8>, now: u64)
    requires
        bearer_extraction(Some(value)) matches Ok(token) && verification(
            key,
            token,
            service_audience(),
            now,
        ) == Err::<ClaimsView, TokenErrorView>(TokenErrorView::ExpiredTokenError),
    ensures
        request_outcome(key, Some(value), now) == Err::<ClaimsView, HttpErrorView>(
            HttpErrorView::Simple(401, "expired_token"@),
        ),
{
}

/// A request whose bearer token is in order and not expired, but is not
/// meant for this service, is a bad request: its code is `bad_token: `
/// followed by the codec's description of the audience's refusal.
pub proof fn lemma_foreign_request_is_a_bad_token(key: VerifyingKey, value: Seq<u8>, now: u64)
    requires
        bearer_extraction(Some(value)) matches Ok(token) && jwt_decoding(
            key,
            token,
            service_audience(),
            true,
        ) is WrongAudience && (jwt_decoding(key, token, service_audience(), false)
            matches DecodingView::Claims(raw) && judgement(raw, now) is Ok),
    ensures
        request_outcome(key, Some(value), now) == Err::<ClaimsView, HttpErrorView>(
            HttpErrorView::Simple(
                400,
                "bad_token: "@ + jwt_decoding(
                    key,
                    bearer_extraction(Some(value))->Ok_0,
                    service_audience(),
                    true,
                )->WrongAudience_0,
            ),
        ),
{
}

/// A request is granted exactly the claims that the verification of its
/// bearer token yields.
pub proof fn lemma_granted_request_is_verified(key: VerifyingKey, value: Seq<u8>, now: u64)
    ensures
        request_outcome(key, Some(value), now) is Ok <==> (bearer_extraction(Some(value))
            matches Ok(token) && verification(key, token, service_audience(), now) is Ok),
        request_outcome(key, Some(value), now) matches Ok(claims) ==> verification(
            key,
            bearer_extraction(Some(value))->Ok_0,
            service_audience(),
            now,
        ) == Ok::<ClaimsView, TokenErrorView>(claims),
{
}

/// The result of a verification does not change while the clock stays on
/// either side of the expiration: the clock is all that a second try can
/// differ in.
pub proof fn lemma_verification_changes_only_at_expiry(
    key: VerifyingKey,
    token: Seq<char>,
    audience: Seq<Seq<char>>,
    earlier: u64,
    later: u64,
)
    requires
        earlier <= later,
        verification(key, token, audience, later) is Ok,
    ensures
        verification(key, token, audience, earlier) == verification(key, token, audience, later),
{
}

impl RawClaims {
    /// The claims, if all four are there and the two times fit `usize`.
    pub fn into_claims(self) -> (claims: Option<PongaToken>)
        ensures
            match claims {
                Some(found) => claims_of(self@) == Some(found@),
                None => claims_of(self@) is None,
            },
    {
        let RawClaims { exp, iat, iss, sub } = self;
        match (exp, iat, iss, sub) {
            (Some(exp), Some(iat), Some(iss), Some(sub)) => {
                if exp > usize::MAX as u64 || iat > usize::MAX as u64 {
                    None
                } else {
                    Some(PongaToken { exp: exp as usize, iat: iat as usize, iss, sub })
                }
            },
            _ => None,
        }
    }
}

impl Token<PongaToken> {
    /// Judges a payload at the time `now`; see [`judgement`].
    pub fn from_claims(raw: RawClaims, now: u64) -> (outcome: Result<Token<PongaToken>, TokenError>)
        ensures
            outcome_view(outcome) == judgement(raw@, now),
    {
        match raw.into_claims() {
            None => Err(TokenError::CryptoError("incomplete claims".to_string())),
            Some(claims) => {
                if claims.exp as u64 <= now {
                    Err(TokenError::ExpiredTokenError)
                } else {
                    Ok(Token(claims))
                }
            },
        }
    }

    /// Judges what the codec made of a token, at the time `now`; see
    /// [`verdict`].
    pub fn from_decoding(decoding: Decoding, now: u64) -> (outcome: Result<
        Token<PongaToken>,
        TokenError,
    >)
        ensures
            outcome_view(outcome) == verdict(decoding@, now),
    {
        match decoding {
            Decoding::UnusableKey => Err(TokenError::InvalidKeyError),
            Decoding::Claims(raw) => Token::from_claims(raw, now),
            Decoding::WrongAudience(detail) => Err(TokenError::CryptoError(detail)),
            Decoding::Rejected(detail) => Err(TokenError::CryptoError(detail)),
        }
    }

    /// The failure for a token whose audience was refused; see
    /// [`audience_refusal`].
    pub fn audience_refusal(detail: String, lenient: Decoding, now: u64) -> (error: TokenError)
        ensures
            error@ == audience_refusal(detail@, lenient@, now),
    {
        match lenient {
            Decoding::Claims(raw) => match Token::from_claims(raw, now) {
                Ok(_) => TokenError::CryptoError(detail),
                Err(error) => error,
            },
            _ => TokenError::CryptoError(detail),
        }
    }

    /// Signs `token` with RSA-SHA-256 under the private key `key`, a PEM
    /// file's bytes.
    ///
    /// A key that the codec cannot use is a [`TokenError::CryptoError`]. No
    /// verifier that holds a shared secret accepts the token: it fails there
    /// with a [`TokenError::CryptoError`], at any time and for any audience.
    /// A verifier that holds an RSA public key either finds the signature
    /// good, and then the token verifies back to the same claims until they
    /// expire and is expired from then on, or it refuses the token.
    pub fn sign_rsa(token: &PongaToken, key: &Vec<u8>) -> (outcome: Result<String, TokenError>)
        ensures
            signing_view(outcome) == signing(SigningKey::Rs256 { pem: key@ }, token@),
            outcome matches Ok(signed) ==> forall|
                secret: Seq<u8>,
                audience: Seq<Seq<char>>,
                now: u64,
            |
                (#[trigger] verification(VerifyingKey::Hs512 { secret }, signed@, audience, now))
                    matches Err(TokenErrorView::CryptoError(_)),
            outcome matches Ok(signed) ==> forall|
                n: Seq<char>,
                e: Seq<char>,
                audience: Seq<Seq<char>>,
                now: u64,
            |
                #![trigger verification(VerifyingKey::Rs256 { n, e }, signed@, audience, now)]
                if jwt_decoding(VerifyingKey::Rs256 { n, e }, signed@, audience, true) is Claims {
                    verification(VerifyingKey::Rs256 { n, e }, signed@, audience, now) == standing(
                        token@,
                        now,
                    )
                } else {
                    match verification(VerifyingKey::Rs256 { n, e }, signed@, audience, now) {
                        Err(TokenErrorView::CryptoError(_)) => true,
                        Err(TokenErrorView::InvalidKeyError) => true,
                        _ => false,
                    }
                },
    {
        match encode_rs256(token, key.as_slice()) {
            Ok(signed) => Ok(signed),
            Err(detail) => Err(TokenError::CryptoError(detail)),
        }
    }

    /// Signs `token` with HMAC-SHA-512 under the secret `key`. There is
    /// always a token.
    ///
    /// Under the same secret the token verifies back to the same claims, for
    /// any audience, until they expire, and is expired from then on. No
    /// verifier that holds an RSA key accepts it: it fails there with a
    /// [`TokenError::CryptoError`], or with [`TokenError::InvalidKeyError`]
    /// if that verifier's key is unusable.
    pub fn sign(token: &PongaToken, key: &str) -> (outcome: Result<String, TokenError>)
        ensures
            outcome is Ok,
            signing_view(outcome) == signing(
                SigningKey::Hs512 { secret: key.spec_bytes() },
                token@,
            ),
            outcome matches Ok(signed) ==> forall|audience: Seq<Seq<char>>, now: u64|
                #[trigger] verification(
                    VerifyingKey::Hs512 { secret: key.spec_bytes() },
                    signed@,
                    audience,
                    now,
                ) == standing(token@, now),
            outcome matches Ok(signed) ==> forall|
                n: Seq<char>,
                e: Seq<char>,
                audience: Seq<Seq<char>>,
                now: u64,
            |
                match #[trigger] verification(VerifyingKey::Rs256 { n, e }, signed@, audience, now) {
                    Err(TokenErrorView::CryptoError(_)) => true,
                    Err(TokenErrorView::InvalidKeyError) => true,
                    _ => false,
                },
    {
        match encode_hs512(token, key) {
            Ok(signed) => Ok(signed),
            Err(detail) => Err(TokenError::CryptoError(detail)),
        }
    }

    /// Verifies `token` under the secret `key` for `audience`, at the time
    /// `now`: the claims, or the failure, as [`verification`] gives them for
    /// HMAC-SHA-512.
    pub fn from_string_at(token: &str, key: &str, audience: &[String], now: u64) -> (outcome:
        Result<Token<PongaToken>, TokenError>)
        ensures
            outcome_view(outcome) == verification(
                VerifyingKey::Hs512 { secret: key.spec_bytes() },
                token@,
                audience.deep_view(),
                now,
            ),
            !(outcome matches Err(TokenError::InvalidKeyError)),
    {
        match decode_hs512(token, key, audience, true) {
            Decoding::WrongAudience(detail) => {
                let lenient = decode_hs512(token, key, audience, false);
                Err(Token::audience_refusal(detail, lenient, now))
            },
            strict => Token::from_decoding(strict, now),
        }
    }

    /// Verifies `token` under the secret `key` for `audience`, at the time
    /// that the clock shows: [`Token::from_string_at`] for that time.
    pub fn from_string(token: &str, key: &str, audience: &[String]) -> (outcome: Result<
        Token<PongaToken>,
        TokenError,
    >)
        ensures
            exists|now: u64|
                outcome_view(outcome) == #[trigger] verification(
                    VerifyingKey::Hs512 { secret: key.spec_bytes() },
                    token@,
                    audience.deep_view(),
                    now,
                ),
            !(outcome matches Err(TokenError::InvalidKeyError)),
    {
        let now = current_timestamp();
        Token::from_string_at(token, key, audience, now)
    }

    /// Verifies `token` under the RSA public key of modulus `n` and exponent
    /// `e` for `audience`, at the time `now`: the claims, or the failure, as
    /// [`verification`] gives them for RSA-SHA-256. The key is invalid
    /// exactly when `n` and `e` do not make one, whatever the token.
    pub fn from_string_jwk_at(token: &str, n: &str, e: &str, audience: &[String], now: u64) -> (outcome:
        Result<Token<PongaToken>, TokenError>)
        ensures
            outcome_view(outcome) == verification(
                VerifyingKey::Rs256 { n: n@, e: e@ },
                token@,
                audience.deep_view(),
                now,
            ),
            outcome matches Err(TokenError::InvalidKeyError) <==> !rsa_components_accepted(n@, e@),
    {
        match decode_rs256(token, n, e, audience, true) {
            Decoding::WrongAudience(detail) => {
                let lenient = decode_rs256(token, n, e, audience, false);
                Err(Token::audience_refusal(detail, lenient, now))
            },
            strict => Token::from_decoding(strict, now),
        }
    }

    /// Verifies `token` under the RSA public key of modulus `n` and exponent
    /// `e` for `audience`, at the time that the clock shows:
    /// [`Token::from_string_jwk_at`] for that time.
    pub fn from_string_jwk(token: &str, n: &str, e: &str, audience: &[String]) -> (outcome: Result<
        Token<PongaToken>,
        TokenError,
    >)
        ensures
            exists|now: u64|
                outcome_view(outcome) == #[trigger] verification(
                    VerifyingKey::Rs256 { n: n@, e: e@ },
                    token@,
                    audience.deep_view(),
                    now,
                ),
            outcome matches Err(TokenError::InvalidKeyError) <==> !rsa_components_accepted(n@, e@),
    {
        let now = current_timestamp();
        Token::from_string_jwk_at(token, n, e, audience, now)
    }

    /// What a request comes to under `authenticator` at the time `now`,
    /// given its `Authorization` header, absent or with the value given;
    /// see [`request_outcome`].
    pub fn from_request_parts_at<A: Authenticator + ?Sized>(
        authenticator: &A,
        authorization: Option<&[u8]>,
        now: u64,
    ) -> (outcome: Result<Token<PongaToken>, HttpError>)
        ensures
            request_view(outcome) == request_outcome(
                authenticator.verifying_key(),
                header_view(authorization),
                now,
            ),
    {
        let token = match bearer(authorization) {
            Err(refusal) => {
                return Err(refusal);
            },
            Ok(token) => token,
        };
        let mut audience: Vec<String> = Vec::new();
        audience.push("ponga".to_string());
        assert(audience.deep_view() =~= service_audience());
        match authenticator.verify_jwt_at(token, audience.as_slice(), now) {
            Ok(claims) => Ok(claims),
            Err(error) => Err(HttpError::from_token_error(error)),
        }
    }

    /// What a request comes to under `authenticator` at the time that the
    /// clock shows: [`Token::from_request_parts_at`] for that time.
    pub fn from_request_parts<A: Authenticator + ?Sized>(authenticator: &A, authorization: Option<&[u8]>) -> (outcome:
        Result<Token<PongaToken>, HttpError>)
        ensures
            exists|now: u64|
                request_view(outcome) == #[trigger] request_outcome(
                    authenticator.verifying_key(),
                    header_view(authorization),
                    now,
                ),
    {
        let now = current_timestamp();
        Token::from_request_parts_at(authenticator, authorization, now)
    }
}

} // verus!
