//! The request-facing half of the service: start-up, errors, the clock, the
//! token codec, authenticators and extractors.

pub mod app_state;
pub mod authenticator;
pub mod clock;
pub mod codec;
pub mod errors;
pub mod extractors;
