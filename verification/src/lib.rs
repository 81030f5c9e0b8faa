//! Authentication core of the ponga HTTP service.
//!
//! Tokens are issued and verified under one of two strategies, a shared
//! secret or an RSA key pair, and an `Authorization` header is turned into
//! verified claims or into a structured rejection.

pub mod auth_mode;
pub mod web;
