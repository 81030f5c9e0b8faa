//! The variant that signs with an RSA private key and verifies with the
//! public key that a key-set endpoint published.

use vstd::prelude::*;

use super::Authenticator;
use crate::web::app_state::{AppStateInitializationError, AppStateInitializationErrorView};
use crate::web::codec::{jwt_decoding, rsa_components_accepted, SigningKey, VerifyingKey};
use crate::web::errors::token_error::{TokenError, TokenErrorView};
use crate::web::extractors::token::{
    outcome_view, standing, verification, PongaToken, Token,
};

verus! {

/// How long the key-set endpoint is waited for, in seconds.
pub const KEY_SET_TIMEOUT_SECS: u64 = 2;

/// One key of a key set: the modulus and the exponent of an RSA public key,
/// each in URL-safe base64. Whatever else the endpoint says of the key is
/// left out.
#[derive(Debug, Clone, PartialEq, Eq)]
pub struct JwkObject {
    pub n: String,
    pub e: String,
}

/// The body of the key-set endpoint's response: `{"keys": [..]}`.
#[derive(Debug, Clone, PartialEq, Eq)]
pub struct JwksEndpointResponse {
    pub keys: Vec<JwkObject>,
}

/// The mathematical value of a [`JwkObject`].
pub struct JwkObjectView {
    pub n: Seq<char>,
    pub e: Seq<char>,
}

impl View for JwkObject {
    type V = JwkObjectView;

    open spec fn view(&self) -> JwkObjectView {
        JwkObjectView { n: self.n@, e: self.e@ }
    }
}

impl View for JwksEndpointResponse {
    type V = Seq<JwkObjectView>;

    open spec fn view(&self) -> Seq<JwkObjectView> {
        Seq::new(self.keys@.len(), |i: int| self.keys@[i]@)
    }
}

/// What became of the body of the endpoint's response.
#[derive(Debug, Clone, PartialEq, Eq)]
pub enum KeySetBody {
    /// It is not a key set; holds the parser's description.
    Unparsable(String),
    /// It is a key set.
    Parsed(JwksEndpointResponse),
}

/// What became of the one request to the key-set endpoint.
#[derive(Debug, Clone, PartialEq, Eq)]
pub enum KeySetReply {
    /// No response came: the request could not be sent, the connection
    /// failed, or the time ran out. Holds the transport's description.
    Unreachable(String),
    /// A response came, with this status; `status_text` describes the
    /// status for the case that it is no success.
    Answered { status: u16, status_text: String, body: KeySetBody },
}

/// The mathematical value of a [`KeySetBody`].
pub enum KeySetBodyView {
    Unparsable(Seq<char>),
    Parsed(Seq<JwkObjectView>),
}

/// The mathematical value of a [`KeySetReply`].
pub enum KeySetReplyView {
    Unreachable(Seq<char>),
    Answered { status: u16, status_text: Seq<char>, body: KeySetBodyView },
}

impl View for KeySetBody {
    type V = KeySetBodyView;

    open spec fn view(&self) -> KeySetBodyView {
        match *self {
            KeySetBody::Unparsable(cause) => KeySetBodyView::Unparsable(cause@),
            KeySetBody::Parsed(key_set) => KeySetBodyView::Parsed(key_set@),
        }
    }
}

impl View for KeySetReply {
    type V = KeySetReplyView;

    open spec fn view(&self) -> KeySetReplyView {
        match *self {
            KeySetReply::Unreachable(cause) => KeySetReplyView::Unreachable(cause@),
            KeySetReply::Answered { status, status_text, body } => KeySetReplyView::Answered {
                status,
                status_text: status_text@,
                body: body@,
            },
        }
    }
}

/// Whether `status` is one of the success statuses, 200 to 299.
pub open spec fn is_success(status: u16) -> bool {
    200 <= status <= 299
}

/// What is said of a key set without a key.
pub open spec fn empty_key_set() -> Seq<char> {
    "the key set holds no key"@
}

/// The public key that a reply of the key-set endpoint provides, or the
/// reason why start-up cannot go on.
///
/// No response and a response without success are a
/// [`AppStateInitializationError::JwksUrlError`]; so the body of such a
/// response is never looked at. A body that is no key set, or a key set
/// without a key, is a [`AppStateInitializationError::JwksParseError`].
/// Otherwise the first key is the one, whatever follows it.
pub open spec fn provided_key(reply: KeySetReplyView) -> Result<
    JwkObjectView,
    AppStateInitializationErrorView,
> {
    match reply {
        KeySetReplyView::Unreachable(cause) => Err(
            AppStateInitializationErrorView::JwksUrlError(cause),
        ),
        KeySetReplyView::Answered { status, status_text, body } => if !is_success(status) {
            Err(AppStateInitializationErrorView::JwksUrlError(status_text))
        } else {
            match body {
                KeySetBodyView::Unparsable(cause) => Err(
                    AppStateInitializationErrorView::JwksParseError(cause),
                ),
                KeySetBodyView::Parsed(keys) => if keys.len() == 0 {
                    Err(AppStateInitializationErrorView::JwksParseError(empty_key_set()))
                } else {
                    Ok(keys[0])
                },
            }
        },
    }
}

/// A reply without success never provides a key: no response, or a
/// response whose status is no success, is a
/// [`AppStateInitializationError::JwksUrlError`] whatever the body holds,
/// and a body that is no key set is a
/// [`AppStateInitializationError::JwksParseError`] under a status of
/// success. The two are told apart by the variant.
pub proof fn lemma_failed_fetch_is_told_apart(reply: KeySetReplyView)
    ensures
        match reply {
            KeySetReplyView::Unreachable(cause) => provided_key(reply) == Err::<
                JwkObjectView,
                AppStateInitializationErrorView,
            >(AppStateInitializationErrorView::JwksUrlError(cause)),
            KeySetReplyView::Answered { status, status_text, body } => if !is_success(status) {
                provided_key(reply) == Err::<JwkObjectView, AppStateInitializationErrorView>(
                    AppStateInitializationErrorView::JwksUrlError(status_text),
                )
            } else {
                match body {
                    KeySetBodyView::Unparsable(cause) => provided_key(reply) == Err::<
                        JwkObjectView,
                        AppStateInitializationErrorView,
                    >(AppStateInitializationErrorView::JwksParseError(cause)),
                    KeySetBodyView::Parsed(keys) => provided_key(reply) is Ok ==> keys.len() > 0
                        && provided_key(reply)->Ok_0 == keys[0],
                }
            },
        },
{
}

/// The mathematical value of what [`KeySetReply::into_key`] returns.
pub open spec fn provision_view(outcome: Result<JwkObject, AppStateInitializationError>) -> Result<
    JwkObjectView,
    AppStateInitializationErrorView,
> {
    match outcome {
        Ok(key) => Ok(key@),
        Err(error) => Err(error@),
    }
}

impl KeySetReply {
    /// The public key that the reply provides, or the reason why start-up
    /// cannot go on; see [`provided_key`].
    pub fn into_key(self) -> (outcome: Result<JwkObject, AppStateInitializationError>)
        ensures
            provision_view(outcome) == provided_key(self@),
    {
        match self {
            KeySetReply::Unreachable(cause) => Err(AppStateInitializationError::JwksUrlError(cause)),
            KeySetReply::Answered { status, status_text, body } => {
                if status < 200 || status > 299 {
                    Err(AppStateInitializationError::JwksUrlError(status_text))
                } else {
                    match body {
                        KeySetBody::Unparsable(cause) => Err(
                            AppStateInitializationError::JwksParseError(cause),
                        ),
                        KeySetBody::Parsed(key_set) => {
                            let mut keys = key_set.keys;
                            if keys.len() == 0 {
                                Err(
                                    AppStateInitializationError::JwksParseError(
                                        "the key set holds no key".to_string(),
                                    ),
                                )
                            } else {
                                Ok(keys.remove(0))
                            }
                        },
                    }
                }
            },
        }
    }
}

/// An authenticator that holds an RSA key pair and uses RSA-SHA-256.
///
/// The private key is never printed: the type has no `Debug`.
#[derive(Clone)]
pub struct Asymmetric {
    /// Where the public key came from.
    pub jwk_uri: String,
    /// The public key's modulus.
    pub n: String,
    /// The public key's exponent.
    pub e: String,
    /// The private key: the bytes of a PEM file.
    pub private_key: Vec<u8>,
}

impl Asymmetric {
    /// The authenticator for the public key `key`, fetched from `jwk_uri`,
    /// and the private key `private_key`.
    pub fn new(jwk_uri: &str, key: JwkObject, private_key: Vec<u8>) -> (authenticator: Self)
        ensures
            authenticator.jwk_uri@ == jwk_uri@,
            authenticator.n@ == key.n@,
            authenticator.e@ == key.e@,
            authenticator.private_key@ == private_key@,
    {
        Asymmetric { jwk_uri: jwk_uri.to_string(), n: key.n, e: key.e, private_key }
    }
}

impl Authenticator for Asymmetric {
    open spec fn signing_key(&self) -> SigningKey {
        SigningKey::Rs256 { pem: self.private_key@ }
    }

    open spec fn verifying_key(&self) -> VerifyingKey {
        VerifyingKey::Rs256 { n: self.n@, e: self.e@ }
    }

    proof fn algorithms_match(&self) {
    }

    /// The key is invalid exactly when the modulus and the exponent do not
    /// make one, whatever the token.
    fn verify_jwt_at(&self, token: &str, aud: &[String], now: u64) -> (outcome: Result<
        Token<PongaToken>,
        TokenError,
    >)
        ensures
            outcome matches Err(TokenError::InvalidKeyError) <==> !rsa_components_accepted(
                self.n@,
                self.e@,
            ),
    {
        Token::from_string_jwk_at(token, self.n.as_str(), self.e.as_str(), aud, now)
    }

    /// The key is invalid exactly when the modulus and the exponent do not
    /// make one, whatever the token.
    fn verify_jwt(&self, token: &str, aud: &[String]) -> (outcome: Result<
        Token<PongaToken>,
        TokenError,
    >)
        ensures
            outcome matches Err(TokenError::InvalidKeyError) <==> !rsa_components_accepted(
                self.n@,
                self.e@,
            ),
    {
        let outcome = Token::from_string_jwk(token, self.n.as_str(), self.e.as_str(), aud);
        proof {
            let key = VerifyingKey::Rs256 { n: self.n@, e: self.e@ };
            let now = choose|now: u64|
                outcome_view(outcome) == #[trigger] verification(
                    key,
                    token@,
                    aud.deep_view(),
                    now,
                );
            assert(outcome_view(outcome) == verification(
                self.verifying_key(),
                token@,
                aud.deep_view(),
                now,
            ));
        }
        outcome
    }

    /// An authenticator that holds a shared secret refuses the token. One
    /// that holds an RSA public key, this one too, either finds the signature
    /// good, and then the token verifies back to `claims` until they expire
    /// and is expired from then on, or it refuses the token.
    fn create_jwt(&self, claims: PongaToken) -> (outcome: Result<String, TokenError>)
        ensures
            outcome matches Ok(signed) ==> forall|
                secret: Seq<u8>,
                audience: Seq<Seq<char>>,
                now: u64,
            |
                (#[trigger] verification(VerifyingKey::Hs512 { secret }, signed@, audience, now))
                    matches Err(TokenErrorView::CryptoError(_)),
            outcome matches Ok(signed) ==> forall|
                n: Seq<char>,
                e: Seq<char>,
                audience: Seq<Seq<char>>,
                now: u64,
            |
                #![trigger verification(VerifyingKey::Rs256 { n, e }, signed@, audience, now)]
                if jwt_decoding(VerifyingKey::Rs256 { n, e }, signed@, audience, true) is Claims {
                    verification(VerifyingKey::Rs256 { n, e }, signed@, audience, now) == standing(
                        claims@,
                        now,
                    )
                } else {
                    match verification(VerifyingKey::Rs256 { n, e }, signed@, audience, now) {
                        Err(TokenErrorView::CryptoError(_)) => true,
                        Err(TokenErrorView::InvalidKeyError) => true,
                        _ => false,
                    }
                },
    {
        Token::sign_rsa(&claims, &self.private_key)
    }
}

} // verus!
