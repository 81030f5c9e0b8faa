use ponga_auth::web::authenticator::symmetric::Symmetric;
use ponga_auth::web::authenticator::Authenticator;
use ponga_auth::web::errors::http_error::HttpError;
use ponga_auth::web::extractors::header::{bearer, has_prefix_at, is_text_value, token_of};
use ponga_auth::web::extractors::token::{PongaToken, Token};

const T: usize = 2_000_000_000;

fn refusal(code: &str) -> HttpError {
    HttpError::Simple(400, code.to_string())
}

fn claims(exp: usize) -> PongaToken {
    PongaToken { exp, iat: T, iss: "ponga".to_string(), sub: "u1".to_string() }
}

#[test]
fn missing_header_is_no_auth() {
    assert_eq!(bearer(None), Err(refusal("no_auth")));
    let response = bearer(None).unwrap_err().into_response();
    assert_eq!(response.status, 400);
    assert_eq!(response.success, false);
    assert_eq!(response.error, "no_auth");
    assert_eq!(response.fields, None);
}

#[test]
fn header_without_bearer_is_no_bearer_specified() {
    assert_eq!(bearer(Some(b"Token abc")), Err(refusal("no_bearer_specified")));
    let response = bearer(Some(b"Token abc")).unwrap_err().into_response();
    assert_eq!(response.status, 400);
    assert_eq!(response.success, false);
    assert_eq!(response.error, "no_bearer_specified");
    assert_eq!(response.fields, None);
}

#[test]
fn header_that_is_no_text_is_invalid_auth_header() {
    assert_eq!(bearer(Some(b"Bearer \xff")), Err(refusal("invalid_auth_header")));
    assert_eq!(bearer(Some(b"\x80")), Err(refusal("invalid_auth_header")));
    assert_eq!(bearer(Some(b"Bearer abc\x7f")), Err(refusal("invalid_auth_header")));
    assert_eq!(bearer(Some(b"Bearer a\nb")), Err(refusal("invalid_auth_header")));
    assert_eq!(bearer(Some(b"Bearer a\x00b")), Err(refusal("invalid_auth_header")));
    assert_eq!(bearer(Some("Bearer \u{e9}".as_bytes())), Err(refusal("invalid_auth_header")));
    assert_eq!(bearer(Some(b"Token \x1f")), Err(refusal("invalid_auth_header")));
}

#[test]
fn bearer_token_is_what_follows_the_prefix() {
    assert_eq!(bearer(Some(b"Bearer abc")), Ok("abc"));
    assert_eq!(bearer(Some(b"Bearer a.b.c")), Ok("a.b.c"));
    assert_eq!(bearer(Some(b"Bearer ")), Ok(""));
    assert_eq!(bearer(Some(b"Bearer  abc ")), Ok(" abc "));
    assert_eq!(bearer(Some(b"Bearer a\tb~")), Ok("a\tb~"));
    assert_eq!(bearer(Some(b"Bearer Bearer")), Ok("Bearer"));
    assert_eq!(bearer(Some(b"Bearer xBearer")), Ok("xBearer"));
}

#[test]
fn header_must_fall_into_exactly_a_scheme_and_a_token() {
    for value in [
        &b""[..],
        b"Bearer",
        b"bearer abc",
        b"BEARER abc",
        b" Bearer abc",
        b"xBearer abc",
        b"Basic dXNlcjpwYXNz",
        b"Bearer\tabc",
        b"Bearer a Bearer b",
        b"Bearer Bearer abc",
        b"Bearer abcBearer ",
    ] {
        assert_eq!(bearer(Some(value)), Err(refusal("no_bearer_specified")), "{:?}", value);
        assert_eq!(token_of(value), None);
    }
}

#[test]
fn text_is_visible_ascii_and_tab() {
    assert!(is_text_value(b""));
    assert!(is_text_value(b" ~\t"));
    assert!(is_text_value(b"Bearer abc"));
    for byte in 0..=255u8 {
        let expected = (32..127).contains(&byte) || byte == 9;
        assert_eq!(is_text_value(&[b'a', byte, b'z']), expected, "{}", byte);
    }
}

#[test]
fn prefix_is_found_only_where_it_stands() {
    let value = b"Bearer xBearer ";
    assert!(has_prefix_at(value, 0));
    assert!(has_prefix_at(value, 8));
    for at in [1usize, 2, 7, 9, 14, 15, 16, usize::MAX] {
        assert!(!has_prefix_at(value, at), "{}", at);
    }
    assert!(!has_prefix_at(b"Bearer", 0));
    assert!(!has_prefix_at(b"", 0));
    assert_eq!(token_of(b"Bearer abc"), Some(&b"abc"[..]));
    assert_eq!(token_of(b"Bearer \xff"), Some(&b"\xff"[..]));
}

#[test]
fn request_with_a_good_token_yields_its_claims() {
    let authenticator = Symmetric::new("s3cr3t".to_string());
    let token = authenticator.create_jwt(claims(T + 3600)).unwrap();
    let header = format!("Bearer {}", token);
    let outcome = Token::from_request_parts_at(&authenticator, Some(header.as_bytes()), T as u64);
    assert_eq!(outcome, Ok(Token(claims(T + 3600))));
}

#[test]
fn request_by_the_clock() {
    let authenticator = Symmetric::new("s3cr3t".to_string());
    let issued = jsonwebtoken::get_current_timestamp() as usize;
    let live = PongaToken {
        exp: issued + 3600,
        iat: issued,
        iss: "ponga".to_string(),
        sub: "u1".to_string(),
    };
    let token = authenticator.create_jwt(live.clone()).unwrap();
    let header = format!("Bearer {}", token);
    let outcome = Token::from_request_parts(&authenticator, Some(header.as_bytes()));
    assert_eq!(outcome, Ok(Token(live)));

    let token = authenticator.create_jwt(claims(issued - 10)).unwrap();
    let header = format!("Bearer {}", token);
    let outcome = Token::from_request_parts(&authenticator, Some(header.as_bytes()));
    assert_eq!(outcome, Err(HttpError::Simple(401, "expired_token".to_string())));
    assert_eq!(Token::from_request_parts(&authenticator, None), Err(refusal("no_auth")));
}

#[test]
fn request_refusals_carry_status_and_code() {
    let authenticator = Symmetric::new("s3cr3t".to_string());
    let at = |header: Option<&[u8]>| Token::from_request_parts_at(&authenticator, header, T as u64);
    assert_eq!(at(None), Err(refusal("no_auth")));
    assert_eq!(at(Some(b"Token abc")), Err(refusal("no_bearer_specified")));
    assert_eq!(at(Some(b"Bearer \xfe")), Err(refusal("invalid_auth_header")));
    assert_eq!(at(Some(b"Bearer abc")), Err(refusal("bad_token: InvalidToken")));
    assert_eq!(at(Some(b"Bearer ")), Err(refusal("bad_token: InvalidToken")));

    let expired = authenticator.create_jwt(claims(T)).unwrap();
    let header = format!("Bearer {}", expired);
    assert_eq!(
        at(Some(header.as_bytes())),
        Err(HttpError::Simple(401, "expired_token".to_string()))
    );

    let foreign = Symmetric::new("other".to_string()).create_jwt(claims(T + 1)).unwrap();
    let header = format!("Bearer {}", foreign);
    assert_eq!(at(Some(header.as_bytes())), Err(refusal("bad_token: InvalidSignature")));
}

#[test]
fn the_service_verifies_for_the_audience_ponga() {
    let authenticator = Symmetric::new("s3cr3t".to_string());
    let mut payload = serde_json::Map::new();
    payload.insert("exp".to_string(), serde_json::Value::from(T as u64 + 10));
    payload.insert("iat".to_string(), serde_json::Value::from(T as u64));
    payload.insert("iss".to_string(), serde_json::Value::from("ponga"));
    payload.insert("sub".to_string(), serde_json::Value::from("u1"));
    payload.insert("aud".to_string(), serde_json::Value::from("ponga"));
    let key = jsonwebtoken::EncodingKey::from_secret(b"s3cr3t");
    let header = jsonwebtoken::Header::new(jsonwebtoken::Algorithm::HS512);
    let accepted = jsonwebtoken::encode(&header, &payload, &key).unwrap();
    let value = format!("Bearer {}", accepted);
    let outcome = Token::from_request_parts_at(&authenticator, Some(value.as_bytes()), T as u64);
    assert_eq!(outcome, Ok(Token(claims(T + 10))));

    payload.insert("aud".to_string(), serde_json::Value::from("Ponga"));
    let refused = jsonwebtoken::encode(&header, &payload, &key).unwrap();
    let value = format!("Bearer {}", refused);
    let outcome = Token::from_request_parts_at(&authenticator, Some(value.as_bytes()), T as u64);
    assert_eq!(outcome, Err(refusal("bad_token: InvalidAudience")));
}
