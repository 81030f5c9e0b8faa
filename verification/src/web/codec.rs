//! The token codec: the calls into the `jsonwebtoken` crate and the plain
//! values that go in and come out.
//!
//! Nothing in this file is proved of the crate. Each call has a contract that
//! gives its result a name, so that the rest of the library can say exactly
//! what it returns for each result of the codec.

use jsonwebtoken::errors::ErrorKind;
use jsonwebtoken::{decode, encode, Algorithm, DecodingKey, EncodingKey, Header, Validation};
use serde_json::Value;
use vstd::prelude::*;
use vstd::string::StringSliceAdditionalSpecFns;

use super::extractors::token::{ClaimsView, PongaToken};

verus! {

/// The key of a signature and, with it, the algorithm.
pub enum SigningKey {
    /// HMAC with SHA-512 under a shared secret.
    Hs512 { secret: Seq<u8> },
    /// RSA PKCS#1 v1.5 with SHA-256 under a private key in PEM form.
    Rs256 { pem: Seq<u8> },
}

/// The key of a verification and, with it, the one algorithm accepted.
pub enum VerifyingKey {
    /// HMAC with SHA-512 under a shared secret.
    Hs512 { secret: Seq<u8> },
    /// RSA PKCS#1 v1.5 with SHA-256 under a public key given by its modulus
    /// and exponent, each in URL-safe base64 without padding.
    Rs256 { n: Seq<char>, e: Seq<char> },
}

/// The four claims as they stand in a token's payload: each is absent where
/// the payload has no member of that name or one of another type.
#[derive(Debug, Clone, PartialEq, Eq)]
pub struct RawClaims {
    pub exp: Option<u64>,
    pub iat: Option<u64>,
    pub iss: Option<String>,
    pub sub: Option<String>,
}

/// The mathematical value of [`RawClaims`].
pub struct RawClaimsView {
    pub exp: Option<u64>,
    pub iat: Option<u64>,
    pub iss: Option<Seq<char>>,
    pub sub: Option<Seq<char>>,
}

impl View for RawClaims {
    type V = RawClaimsView;

    open spec fn view(&self) -> RawClaimsView {
        RawClaimsView {
            exp: self.exp,
            iat: self.iat,
            iss: self.iss.deep_view(),
            sub: self.sub.deep_view(),
        }
    }
}

/// What the codec makes of a token, without regard to the clock.
#[derive(Debug, Clone, PartialEq, Eq)]
pub enum Decoding {
    /// The key material cannot be made into a key.
    UnusableKey,
    /// Structure, algorithm, signature and, where it was asked for, audience
    /// are in order; holds the payload's claims.
    Claims(RawClaims),
    /// All is in order but the audience; holds the codec's description.
    WrongAudience(String),
    /// The token is refused for another reason; holds the codec's description.
    Rejected(String),
}

/// The mathematical value of a [`Decoding`].
pub enum DecodingView {
    UnusableKey,
    Claims(RawClaimsView),
    WrongAudience(Seq<char>),
    Rejected(Seq<char>),
}

impl View for Decoding {
    type V = DecodingView;

    open spec fn view(&self) -> DecodingView {
        match *self {
            Decoding::UnusableKey => DecodingView::UnusableKey,
            Decoding::Claims(raw) => DecodingView::Claims(raw@),
            Decoding::WrongAudience(detail) => DecodingView::WrongAudience(detail@),
            Decoding::Rejected(detail) => DecodingView::Rejected(detail@),
        }
    }
}

/// The mathematical value of a signing result: the token, or the codec's
/// description of why there is none.
pub open spec fn encoding_view(result: Result<String, String>) -> Result<Seq<char>, Seq<char>> {
    match result {
        Ok(token) => Ok(token@),
        Err(detail) => Err(detail@),
    }
}

/// The payload claims that stand for `claims`.
pub open spec fn raw_claims_of(claims: ClaimsView) -> RawClaimsView {
    RawClaimsView {
        exp: Some(claims.exp as u64),
        iat: Some(claims.iat as u64),
        iss: Some(claims.iss),
        sub: Some(claims.sub),
    }
}

/// What `jsonwebtoken::encode` returns for a header that names only the
/// algorithm of `key`, the payload `{exp, iat, iss, sub}` of `claims`, and
/// `key`: the token, or the description of the error.
pub uninterp spec fn jwt_encoding(key: SigningKey, claims: ClaimsView) -> Result<
    Seq<char>,
    Seq<char>,
>;

/// What `jsonwebtoken::decode` makes of `token` under `key` when only the
/// algorithm of `key` is accepted, expiry is not looked at, and the audience
/// is held against `audience` if `enforce_audience` is set and not looked at
/// otherwise.
pub uninterp spec fn jwt_decoding(
    key: VerifyingKey,
    token: Seq<char>,
    audience: Seq<Seq<char>>,
    enforce_audience: bool,
) -> DecodingView;

/// Whether `jsonwebtoken::DecodingKey::from_rsa_components` makes a key of
/// the modulus `n` and the exponent `e`: whether each is URL-safe base64
/// without padding, as the crate's decoder takes it.
pub uninterp spec fn rsa_components_accepted(n: Seq<char>, e: Seq<char>) -> bool;

/// Signs `claims` with HMAC-SHA-512 under `secret`.
///
/// Calls `jsonwebtoken::encode` with the header `Header::new(HS512)`, the
/// four claims as a JSON object, and `EncodingKey::from_secret`. The contract
/// names the result, and claims what the crate's source shows. There is a
/// token: any bytes are a secret, the header and the four claims always
/// serialise, and an HMAC cannot fail. `decode` under the same secret
/// recomputes the signature, finds it equal and hands back the four claims,
/// the token having no audience to object to. `decode` under an RSA key
/// refuses the token, whose header names another algorithm than the one
/// accepted.
#[verifier::external_body]
pub(crate) fn encode_hs512(claims: &PongaToken, secret: &str) -> (result: Result<String, String>)
    ensures
        result is Ok,
        encoding_view(result) == jwt_encoding(
            SigningKey::Hs512 { secret: secret.spec_bytes() },
            claims@,
        ),
        result matches Ok(token) ==> forall|audience: Seq<Seq<char>>, enforce: bool|
            #[trigger] jwt_decoding(
                VerifyingKey::Hs512 { secret: secret.spec_bytes() },
                token@,
                audience,
                enforce,
            ) == DecodingView::Claims(raw_claims_of(claims@)),
        result matches Ok(token) ==> forall|
            n: Seq<char>,
            e: Seq<char>,
            audience: Seq<Seq<char>>,
            enforce: bool,
        |
            (#[trigger] jwt_decoding(VerifyingKey::Rs256 { n, e }, token@, audience, enforce))
                is Rejected || jwt_decoding(VerifyingKey::Rs256 { n, e }, token@, audience, enforce)
                is UnusableKey,
{
    let mut payload = serde_json::Map::new();
    payload.insert("exp".to_owned(), Value::from(claims.exp));
    payload.insert("iat".to_owned(), Value::from(claims.iat));
    payload.insert("iss".to_owned(), Value::from(claims.iss.as_str()));
    payload.insert("sub".to_owned(), Value::from(claims.sub.as_str()));
    let header = Header::new(Algorithm::HS512);
    let key = EncodingKey::from_secret(secret.as_bytes());
    encode(&header, &payload, &key).map_err(|e| e.to_string())
}

/// Signs `claims` with RSA-SHA-256 under the private key `pem`.
///
/// Calls `jsonwebtoken::encode` with the header `Header::new(RS256)`, the
/// four claims as a JSON object, and `EncodingKey::from_rsa_pem`, whose error
/// it hands on. The contract names the result, and claims of the token what
/// the crate's source shows. `decode` under a shared secret refuses it, its
/// header naming another algorithm than the one accepted. `decode` under an
/// RSA key, whichever it is, either refuses the token or hands back the four
/// claims that were signed: the payload is read only once the signature has
/// been found good, it is the payload that `encode` wrote, and it holds no
/// audience to object to.
#[verifier::external_body]
pub(crate) fn encode_rs256(claims: &PongaToken, pem: &[u8]) -> (result: Result<String, String>)
    ensures
        encoding_view(result) == jwt_encoding(SigningKey::Rs256 { pem: pem@ }, claims@),
        result matches Ok(token) ==> forall|
            n: Seq<char>,
            e: Seq<char>,
            audience: Seq<Seq<char>>,
            enforce: bool,
        |
            match #[trigger] jwt_decoding(VerifyingKey::Rs256 { n, e }, token@, audience, enforce) {
                DecodingView::Claims(raw) => raw == raw_claims_of(claims@),
                DecodingView::WrongAudience(_) => false,
                _ => true,
            },
        result matches Ok(token) ==> forall|
            secret: Seq<u8>,
            audience: Seq<Seq<char>>,
            enforce: bool,
        |
            (#[trigger] jwt_decoding(VerifyingKey::Hs512 { secret }, token@, audience, enforce))
                is Rejected,
{
    let mut payload = serde_json::Map::new();
    payload.insert("exp".to_owned(), Value::from(claims.exp));
    payload.insert("iat".to_owned(), Value::from(claims.iat));
    payload.insert("iss".to_owned(), Value::from(claims.iss.as_str()));
    payload.insert("sub".to_owned(), Value::from(claims.sub.as_str()));
    let header = Header::new(Algorithm::RS256);
    let key = EncodingKey::from_rsa_pem(pem).map_err(|e| e.to_string())?;
    encode(&header, &payload, &key).map_err(|e| e.to_string())
}

/// Decodes `token` under the shared secret `secret`, accepting HMAC-SHA-512
/// alone.
///
/// Calls `jsonwebtoken::decode` with `DecodingKey::from_secret` and a
/// `Validation::new(HS512)` in which `validate_exp` is off, so that the
/// result does not depend on the clock, `validate_aud` is `enforce_audience`
/// and the audience is `audience`. Of the payload it hands back the four
/// claims, each where it is a member of the right type. The contract names
/// the result; a shared secret is always a key.
#[verifier::external_body]
pub(crate) fn decode_hs512(
    token: &str,
    secret: &str,
    audience: &[String],
    enforce_audience: bool,
) -> (decoding: Decoding)
    ensures
        decoding@ == jwt_decoding(
            VerifyingKey::Hs512 { secret: secret.spec_bytes() },
            token@,
            audience.deep_view(),
            enforce_audience,
        ),
        !(decoding is UnusableKey),
{
    let key = DecodingKey::from_secret(secret.as_bytes());
    let mut rules = Validation::new(Algorithm::HS512);
    rules.validate_exp = false;
    rules.validate_aud = enforce_audience;
    rules.set_audience(audience);
    match decode::<Value>(token, &key, &rules) {
        Ok(data) => Decoding::Claims(RawClaims {
            exp: data.claims["exp"].as_u64(),
            iat: data.claims["iat"].as_u64(),
            iss: data.claims["iss"].as_str().map(String::from),
            sub: data.claims["sub"].as_str().map(String::from),
        }),
        Err(e) if matches!(e.kind(), ErrorKind::InvalidAudience) => Decoding::WrongAudience(e.to_string()),
        Err(e) => Decoding::Rejected(e.to_string()),
    }
}

/// Decodes `token` under the RSA public key of modulus `n` and exponent `e`,
/// accepting RSA-SHA-256 alone.
///
/// Calls `DecodingKey::from_rsa_components`, whose failure is
/// [`Decoding::UnusableKey`], and then `jsonwebtoken::decode` with a
/// `Validation::new(RS256)` set as in [`decode_hs512`]. The contract names
/// the result, and says that the key is unusable exactly when the first call
/// fails, which `n` and `e` alone decide.
#[verifier::external_body]
pub(crate) fn decode_rs256(
    token: &str,
    n: &str,
    e: &str,
    audience: &[String],
    enforce_audience: bool,
) -> (decoding: Decoding)
    ensures
        decoding@ == jwt_decoding(
            VerifyingKey::Rs256 { n: n@, e: e@ },
            token@,
            audience.deep_view(),
            enforce_audience,
        ),
        decoding is UnusableKey <==> !rsa_components_accepted(n@, e@),
{
    let Ok(key) = DecodingKey::from_rsa_components(n, e) else { return Decoding::UnusableKey };
    let mut rules = Validation::new(Algorithm::RS256);
    rules.validate_exp = false;
    rules.validate_aud = enforce_audience;
    rules.set_audience(audience);
    match decode::<Value>(token, &key, &rules) {
        Ok(data) => Decoding::Claims(RawClaims {
            exp: data.claims["exp"].as_u64(),
            iat: data.claims["iat"].as_u64(),
            iss: data.claims["iss"].as_str().map(String::from),
            sub: data.claims["sub"].as_str().map(String::from),
        }),
        Err(e) if matches!(e.kind(), ErrorKind::InvalidAudience) => Decoding::WrongAudience(e.to_string()),
        Err(e) => Decoding::Rejected(e.to_string()),
    }
}

} // verus!
