//! Granting and revoking view access to a commission.
use vstd::prelude::*;
use crate::commission::{ChangelogEntryKind, CommissionError};

verus! {

/// Granting or revoking view access needs a commission the actor owns.
pub fn decide_view_change(found_and_owned: bool, kind: ChangelogEntryKind) -> (r: Result<
    ChangelogEntryKind,
    CommissionError,
>)
    ensures
        found_and_owned ==> (r matches Ok(k) && k == kind),
        !found_and_owned ==> r matches Err(CommissionError::CommissionNotFound),
{
    if found_and_owned {
        Ok(kind)
    } else {
        Err(CommissionError::CommissionNotFound)
    }
}

} // verus!
