//! What is taken out of a request before a handler runs.

pub mod body;
pub mod header;
pub mod token;
