//! Archiving a commission.
use vstd::prelude::*;
use crate::commission::{ChangelogEntryKind, CommissionError};

verus! {

/// Result of archiving a commission.
pub struct Outcome;

/// An archive needs the commission, not archived yet, and its owner as actor.
/// `commission` is `None` when not found, else (archived, actor is owner).
pub fn decide_archive(commission: Option<(bool, bool)>) -> (r: Result<ChangelogEntryKind, CommissionError>)
    ensures
        match commission {
            None => r matches Err(CommissionError::CommissionNotFound),
            Some((archived, owner)) => if archived {
                r matches Err(CommissionError::CommissionAlreadyAtState)
            } else if !owner {
                r matches Err(CommissionError::InsufficientPermissions)
            } else {
                r matches Ok(k) && k == ChangelogEntryKind::Archived
            },
        },
{
    match commission {
        None => Err(CommissionError::CommissionNotFound),
        Some((archived, owner)) => {
            if archived {
                Err(CommissionError::CommissionAlreadyAtState)
            } else if !owner {
                Err(CommissionError::InsufficientPermissions)
            } else {
                Ok(ChangelogEntryKind::Archived)
            }
        },
    }
}

} // verus!
