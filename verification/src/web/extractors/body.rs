//! Request bodies that have been read and checked.

use vstd::prelude::*;

use crate::web::errors::http_error::{HttpError, HttpErrorView, BAD_REQUEST};

verus! {

/// A body that was read as JSON and whose fields keep their rules.
#[derive(Debug, Clone, PartialEq, Eq)]
pub struct ValidatedJson<T>(pub T);

impl<T> ValidatedJson<T> {
    /// Accepts or refuses a body from what reading and checking it gave.
    ///
    /// `body` is the value that was read, if the body could be read as the
    /// JSON that was asked for; `violations` holds the names of the fields
    /// that broke their rules, if any did. A body that could not be read is
    /// `invalid_body`; broken rules are `invalid_fields` with those names.
    pub fn from_checks(body: Option<T>, violations: Option<Vec<String>>) -> (outcome: Result<
        Self,
        HttpError,
    >)
        ensures
            match (body, violations) {
                (None, _) => outcome matches Err(error) && error@ == HttpErrorView::ParsingError(
                    "invalid_body"@,
                    BAD_REQUEST,
                ),
                (Some(_), Some(fields)) => outcome matches Err(error) && error@
                    == HttpErrorView::InvalidFieldsError(fields.deep_view()),
                (Some(value), None) => outcome matches Ok(accepted) && accepted.0 == value,
            },
    {
        match body {
            None => Err(HttpError::from_json_rejection(BAD_REQUEST)),
            Some(value) => match violations {
                Some(fields) => Err(HttpError::from_validation_errors(fields)),
                None => Ok(ValidatedJson(value)),
            },
        }
    }
}

} // verus!
