//! Failures inside the service and the responses that clients see for them.

pub mod http_error;
pub mod token_error;
