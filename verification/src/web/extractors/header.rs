//! Reading the bearer token out of the value of an `Authorization` header.

use vstd::prelude::*;
use vstd::slice::slice_subrange;
use vstd::string::StringSliceAdditionalSpecFns;
use vstd::utf8::{
    encode_utf8, encode_utf8_decode_utf8, encode_utf8_valid_utf8, is_ascii_chars,
    is_ascii_chars_encode_utf8, valid_utf8,
};

use crate::web::errors::http_error::{HttpError, HttpErrorView, BAD_REQUEST};

verus! {

/// `core::str::Utf8Error`, of which nothing is read: it only says that
/// `core::str::from_utf8` failed.
#[verifier::external_type_specification]
#[verifier::external_body]
pub struct ExUtf8Error(core::str::Utf8Error);

/// `core::str::from_utf8` succeeds on the bytes that are valid UTF-8 and on
/// no others, and the string slice that it returns has those very bytes.
pub assume_specification<'a>[ core::str::from_utf8 ](bytes: &'a [u8]) -> (text: Result<
    &'a str,
    core::str::Utf8Error,
>)
    ensures
        text is Ok <==> valid_utf8(bytes@),
        text matches Ok(slice) ==> slice.spec_bytes() == bytes@,
;

/// The length of the scheme with its blank.
pub const PREFIX_LEN: usize = 7;

/// The scheme and the blank that follows it, `Bearer `, as bytes.
pub open spec fn bearer_prefix() -> Seq<u8> {
    seq![0x42u8, 0x65u8, 0x61u8, 0x72u8, 0x65u8, 0x72u8, 0x20u8]
}

/// Whether `byte` may stand in a header value that is text: a printable
/// ASCII character, the blank included, or a tab.
pub open spec fn is_visible_ascii(byte: u8) -> bool {
    32 <= byte < 127 || byte == 9
}

/// Whether a header value is text: all of its bytes are visible ASCII.
pub open spec fn is_text(value: Seq<u8>) -> bool {
    forall|i: int| 0 <= i < value.len() ==> is_visible_ascii(#[trigger] value[i])
}

/// The characters of a value that is text, one for each byte.
pub open spec fn text_of(value: Seq<u8>) -> Seq<char> {
    Seq::new(value.len(), |i: int| value[i] as char)
}

/// Whether `Bearer ` stands in `value` at the offset `at`.
pub open spec fn prefix_at(value: Seq<u8>, at: int) -> bool {
    0 <= at && at + PREFIX_LEN <= value.len() && value.subrange(at, at + PREFIX_LEN)
        == bearer_prefix()
}

/// The token of a header value: what follows `Bearer ` where the value
/// starts with it and holds it nowhere else, so that the value falls into
/// exactly a scheme and a token.
pub open spec fn bearer_token(value: Seq<u8>) -> Option<Seq<u8>> {
    if prefix_at(value, 0) && forall|at: int| 0 < at ==> !prefix_at(value, at) {
        Some(value.subrange(PREFIX_LEN as int, value.len() as int))
    } else {
        None
    }
}

/// What is made of the `Authorization` header of a request, absent or with
/// the value given: the token's text, or the refusal.
///
/// No header is `no_auth`; a value that is no text is
/// `invalid_auth_header`; text without a bearer token is
/// `no_bearer_specified`. Each is a bad request.
pub open spec fn bearer_extraction(header: Option<Seq<u8>>) -> Result<Seq<char>, HttpErrorView> {
    match header {
        None => Err(HttpErrorView::Simple(BAD_REQUEST, "no_auth"@)),
        Some(value) => if !is_text(value) {
            Err(HttpErrorView::Simple(BAD_REQUEST, "invalid_auth_header"@))
        } else {
            match bearer_token(value) {
                None => Err(HttpErrorView::Simple(BAD_REQUEST, "no_bearer_specified"@)),
                Some(token) => Ok(text_of(token)),
            }
        },
    }
}

/// The mathematical value of a header that may be absent.
pub open spec fn header_view(header: Option<&[u8]>) -> Option<Seq<u8>> {
    match header {
        Some(value) => Some(value@),
        None => None,
    }
}

/// The mathematical value of what [`bearer`] returns.
pub open spec fn extraction_view(outcome: Result<&str, HttpError>) -> Result<
    Seq<char>,
    HttpErrorView,
> {
    match outcome {
        Ok(token) => Ok(token@),
        Err(error) => Err(error@),
    }
}

/// A request without the header is refused as `no_auth`, a bad request.
pub proof fn lemma_absent_header_is_no_auth()
    ensures
        bearer_extraction(None) == Err::<Seq<char>, HttpErrorView>(
            HttpErrorView::Simple(400, "no_auth"@),
        ),
{
}

/// A header value that is text but does not start with `Bearer ` is refused
/// as `no_bearer_specified`, a bad request.
pub proof fn lemma_text_without_prefix_is_no_bearer_specified(value: Seq<u8>)
    requires
        is_text(value),
        !prefix_at(value, 0),
    ensures
        bearer_extraction(Some(value)) == Err::<Seq<char>, HttpErrorView>(
            HttpErrorView::Simple(400, "no_bearer_specified"@),
        ),
{
}

/// A header value is accepted exactly when it is text, starts with
/// `Bearer ` and holds it nowhere else; the token is then the text that
/// follows the prefix.
pub proof fn lemma_accepted_header(value: Seq<u8>)
    ensures
        bearer_extraction(Some(value)) is Ok <==> is_text(value) && prefix_at(value, 0) && forall|
            at: int,
        |
            0 < at ==> !prefix_at(value, at),
        bearer_extraction(Some(value)) is Ok ==> bearer_extraction(Some(value))->Ok_0 == text_of(
            value.subrange(PREFIX_LEN as int, value.len() as int),
        ),
{
}

/// Bytes that are all ASCII are the UTF-8 encoding of their characters.
pub proof fn lemma_ascii_is_utf8(value: Seq<u8>)
    requires
        forall|i: int| 0 <= i < value.len() ==> #[trigger] value[i] < 128,
    ensures
        encode_utf8(text_of(value)) == value,
        valid_utf8(value),
{
    let text = text_of(value);
    assert(is_ascii_chars(text));
    is_ascii_chars_encode_utf8(text);
    assert(encode_utf8(text) =~= value) by {
        assert forall|i: int| 0 <= i < value.len() implies encode_utf8(text)[i] == value[i] by {
            assert(text[i] as u8 == encode_utf8(text)[i]);
        }
    }
    encode_utf8_valid_utf8(text);
}

/// Whether all bytes of `value` are visible ASCII.
pub fn is_text_value(value: &[u8]) -> (text: bool)
    ensures
        text == is_text(value@),
{
    let mut i: usize = 0;
    while i < value.len()
        invariant
            i <= value.len(),
            forall|j: int| 0 <= j < i ==> is_visible_ascii(#[trigger] value@[j]),
        decreases value.len() - i,
    {
        let byte: u8 = value[i];
        if !(byte >= 32 && byte < 127 || byte == 9) {
            return false;
        }
        i += 1;
    }
    true
}

/// Whether `Bearer ` stands in `value` at the offset `at`.
pub fn has_prefix_at(value: &[u8], at: usize) -> (found: bool)
    ensures
        found == prefix_at(value@, at as int),
{
    if value.len() < PREFIX_LEN || at > value.len() - PREFIX_LEN {
        return false;
    }
    let found = value[at] == 0x42 && value[at + 1] == 0x65 && value[at + 2] == 0x61 && value[at
        + 3] == 0x72 && value[at + 4] == 0x65 && value[at + 5] == 0x72 && value[at + 6] == 0x20;
    proof {
        let window = value@.subrange(at as int, at + PREFIX_LEN);
        if found {
            assert(window =~= bearer_prefix());
        } else {
            assert(window[0] == value@[at as int]);
            assert(window[1] == value@[at + 1]);
            assert(window[2] == value@[at + 2]);
            assert(window[3] == value@[at + 3]);
            assert(window[4] == value@[at + 4]);
            assert(window[5] == value@[at + 5]);
            assert(window[6] == value@[at + 6]);
        }
    }
    found
}

/// The token of a header value; see [`bearer_token`].
pub fn token_of<'a>(value: &'a [u8]) -> (token: Option<&'a [u8]>)
    ensures
        header_view(token) == bearer_token(value@),
{
    if !has_prefix_at(value, 0) {
        return None;
    }
    let mut at: usize = 1;
    while at < value.len()
        invariant
            1 <= at,
            forall|other: int| 0 < other < at ==> !prefix_at(value@, other),
        decreases value.len() - at,
    {
        if has_prefix_at(value, at) {
            return None;
        }
        at += 1;
    }
    Some(slice_subrange(value, PREFIX_LEN, value.len()))
}

/// Reads the bearer token out of the `Authorization` header of a request,
/// absent or with the value given; see [`bearer_extraction`].
pub fn bearer<'a>(authorization: Option<&'a [u8]>) -> (outcome: Result<&'a str, HttpError>)
    ensures
        extraction_view(outcome) == bearer_extraction(header_view(authorization)),
{
    let value = match authorization {
        None => {
            return Err(HttpError::Simple(BAD_REQUEST, "no_auth".to_string()));
        },
        Some(value) => value,
    };
    if !is_text_value(value) {
        return Err(HttpError::Simple(BAD_REQUEST, "invalid_auth_header".to_string()));
    }
    let token = match token_of(value) {
        None => {
            return Err(HttpError::Simple(BAD_REQUEST, "no_bearer_specified".to_string()));
        },
        Some(token) => token,
    };
    proof {
        assert forall|i: int| 0 <= i < token@.len() implies #[trigger] token@[i] < 128 by {
            assert(is_visible_ascii(value@[PREFIX_LEN + i]));
        }
        lemma_ascii_is_utf8(token@);
    }
    match core::str::from_utf8(token) {
        Ok(text) => {
            proof {
                encode_utf8_decode_utf8(text@);
                encode_utf8_decode_utf8(text_of(token@));
            }
            Ok(text)
        },
        // Not reached: the token is ASCII, and ASCII is UTF-8.
        Err(_) => Err(HttpError::Simple(BAD_REQUEST, "invalid_auth_header".to_string())),
    }
}

} // verus!
