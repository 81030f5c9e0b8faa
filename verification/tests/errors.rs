use ponga_auth::web::app_state::AppStateInitializationError;
use ponga_auth::web::errors::http_error::{
    ErrorResponse, HttpError, BAD_REQUEST, INTERNAL_SERVER_ERROR, UNAUTHORIZED,
};
use ponga_auth::web::errors::token_error::TokenError;
use ponga_auth::web::extractors::body::ValidatedJson;

fn response(status: u16, error: &str, fields: Option<Vec<String>>) -> ErrorResponse {
    ErrorResponse { status, success: false, error: error.to_string(), fields }
}

#[test]
fn statuses_are_the_standard_ones() {
    assert_eq!(BAD_REQUEST, 400);
    assert_eq!(UNAUTHORIZED, 401);
    assert_eq!(INTERNAL_SERVER_ERROR, 500);
}

#[test]
fn token_errors_map_onto_status_and_code() {
    assert_eq!(
        HttpError::from_token_error(TokenError::CryptoError("InvalidSignature".to_string())),
        HttpError::Simple(400, "bad_token: InvalidSignature".to_string())
    );
    assert_eq!(
        HttpError::from_token_error(TokenError::CryptoError(String::new())),
        HttpError::Simple(400, "bad_token: ".to_string())
    );
    assert_eq!(
        HttpError::from_token_error(TokenError::InvalidKeyError),
        HttpError::Simple(400, "invalid_key".to_string())
    );
    assert_eq!(
        HttpError::from_token_error(TokenError::ExpiredTokenError),
        HttpError::Simple(401, "expired_token".to_string())
    );
}

#[test]
fn refusals_become_responses() {
    assert_eq!(
        HttpError::ParsingError("invalid_body".to_string(), 415).into_response(),
        response(400, "invalid_body", None)
    );
    assert_eq!(
        HttpError::InvalidFieldsError(vec!["email".to_string(), "age".to_string()])
            .into_response(),
        response(400, "invalid_fields", Some(vec!["email".to_string(), "age".to_string()]))
    );
    assert_eq!(
        HttpError::InvalidFieldsError(vec![]).into_response(),
        response(400, "invalid_fields", Some(vec![]))
    );
    assert_eq!(
        HttpError::Simple(418, "teapot".to_string()).into_response(),
        response(418, "teapot", None)
    );
    assert_eq!(HttpError::DatabaseError.into_response(), response(500, "fatal_error", None));
}

#[test]
fn collaborator_failures_map_onto_status_and_code() {
    assert_eq!(
        HttpError::from_json_rejection(422),
        HttpError::ParsingError("invalid_body".to_string(), 422)
    );
    assert_eq!(
        HttpError::from_json_rejection(422).into_response(),
        response(400, "invalid_body", None)
    );
    assert_eq!(
        HttpError::from_validation_errors(vec!["name".to_string()]),
        HttpError::InvalidFieldsError(vec!["name".to_string()])
    );
    assert_eq!(HttpError::from_join_error(), HttpError::DatabaseError);
    assert_eq!(HttpError::from_jwt_error(), HttpError::DatabaseError);
    assert_eq!(HttpError::from_request_error(), HttpError::DatabaseError);
    for refusal in [
        HttpError::from_join_error(),
        HttpError::from_jwt_error(),
        HttpError::from_request_error(),
        HttpError::DatabaseError,
    ] {
        assert_eq!(refusal.into_response(), response(500, "fatal_error", None));
    }
}

#[test]
fn token_errors_describe_themselves() {
    assert_eq!(
        TokenError::CryptoError("InvalidToken".to_string()).message(),
        "jsonwebtoken crate: InvalidToken"
    );
    assert_eq!(TokenError::InvalidKeyError.message(), "invalid_key");
    assert_eq!(TokenError::ExpiredTokenError.message(), "expired_token");
}

#[test]
fn initialization_errors_describe_themselves() {
    assert_eq!(
        AppStateInitializationError::JwksUrlError("timed out".to_string()).message(),
        "error while querying the jwks uri: timed out"
    );
    assert_eq!(
        AppStateInitializationError::JwksParseError("expected value".to_string()).message(),
        "error while parsing the jwk object: expected value"
    );
}

#[test]
fn bodies_are_accepted_or_refused() {
    assert_eq!(ValidatedJson::from_checks(Some(7), None), Ok(ValidatedJson(7)));
    assert_eq!(
        ValidatedJson::<u8>::from_checks(None, None),
        Err(HttpError::ParsingError("invalid_body".to_string(), 400))
    );
    assert_eq!(
        ValidatedJson::<u8>::from_checks(None, Some(vec!["x".to_string()])),
        Err(HttpError::ParsingError("invalid_body".to_string(), 400))
    );
    assert_eq!(
        ValidatedJson::from_checks(Some(7), Some(vec!["x".to_string(), "y".to_string()])),
        Err(HttpError::InvalidFieldsError(vec!["x".to_string(), "y".to_string()]))
    );
    assert_eq!(
        ValidatedJson::from_checks(Some("body"), Some(vec![])),
        Err(HttpError::InvalidFieldsError(vec![]))
    );
    let refused = ValidatedJson::from_checks(Some(7), Some(vec!["x".to_string()]));
    let response = refused.unwrap_err().into_response();
    assert_eq!(response, response_of_fields());
}

fn response_of_fields() -> ErrorResponse {
    response(400, "invalid_fields", Some(vec!["x".to_string()]))
}
