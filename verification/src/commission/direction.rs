//! Setting a commission's direction status.
use vstd::prelude::*;
use crate::commission::{ChangelogEntryKind, CommissionError};

verus! {

/// Setting the direction status: the commission must exist with another
/// direction than the one requested, and an actor who takes part in it is
/// refused as not a member.
pub fn decide_set_direction(found_with_other_direction: bool, actor_participates: bool) -> (r:
    Result<ChangelogEntryKind, CommissionError>)
    ensures
        !found_with_other_direction ==> r matches Err(CommissionError::CommissionNotFound),
        found_with_other_direction && actor_participates ==> r matches Err(
            CommissionError::NotAMember,
        ),
        found_with_other_direction && !actor_participates ==> r matches Ok(
            ChangelogEntryKind::StatusChanged,
        ),
{
    if !found_with_other_direction {
        Err(CommissionError::CommissionNotFound)
    } else if actor_participates {
        Err(CommissionError::NotAMember)
    } else {
        Ok(ChangelogEntryKind::StatusChanged)
    }
}

} // verus!
