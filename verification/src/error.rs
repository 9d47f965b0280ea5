//! The reason for which a list of user identifiers is refused.

use vstd::prelude::*;
use vstd::string::StringExecFns;
use crate::decimal::{decimal_text, usize_to_decimal};
use crate::id::UserId;

verus! {

/// The largest number of user identifiers that one request may name.
pub const MAX_USER_IDS: usize = 100;

/// The provided identifiers are not valid for a request.
#[derive(Clone, Debug)]
#[non_exhaustive]
pub enum UserIdsError {
    /// More than [`MAX_USER_IDS`] user identifiers were provided.
    TooMany {
        /// The provided identifiers, all of them and in the order given.
        ids: Vec<UserId>,
    },
}

/// Mathematical model of a [`UserIdsError`].
pub enum UserIdsErrorView {
    /// More than [`MAX_USER_IDS`] user identifiers were provided.
    TooMany {
        /// The provided identifiers, all of them and in the order given.
        ids: Seq<UserId>,
    },
}

impl View for UserIdsError {
    type V = UserIdsErrorView;

    open spec fn view(&self) -> UserIdsErrorView {
        match self {
            UserIdsError::TooMany { ids } => UserIdsErrorView::TooMany { ids: ids@ },
        }
    }
}

impl UserIdsErrorView {
    /// The sentence that describes the error to a reader.
    pub open spec fn message(self) -> Seq<char> {
        match self {
            UserIdsErrorView::TooMany { ids } => decimal_text(ids.len())
                + " user IDs were provided when only a maximum of 100 is allowed"@,
        }
    }
}

impl UserIdsError {
    /// Describes the error in a sentence that starts with the number of
    /// identifiers that were provided.
    pub fn to_string(&self) -> (text: String)
        ensures
            text@ == self@.message(),
    {
        match self {
            UserIdsError::TooMany { ids } => usize_to_decimal(ids.len()).concat(
                " user IDs were provided when only a maximum of 100 is allowed",
            ),
        }
    }
}

} // verus!
