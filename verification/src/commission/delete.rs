//! Deleting a commission.
use vstd::prelude::*;
use crate::commission::CommissionError;

verus! {

/// Result of a delete: the commission was deleted, or it holds facts and
/// was kept.
#[derive(Debug, Clone, Copy, PartialEq, Eq, Structural)]
pub enum Outcome {
    Deleted,
    HasFacts,
}

/// A delete needs a commission the actor owns (`owned` is `None` when the
/// commission is unknown or owned by someone else, else whether it holds
/// facts); one that holds facts is kept, else it is deleted.
pub fn decide_delete(owned: Option<bool>) -> (r: Result<Outcome, CommissionError>)
    ensures
        owned is None ==> r matches Err(CommissionError::CommissionNotFound),
        owned == Some(true) ==> r matches Ok(Outcome::HasFacts),
        owned == Some(false) ==> r matches Ok(Outcome::Deleted),
{
    match owned {
        None => Err(CommissionError::CommissionNotFound),
        Some(true) => Ok(Outcome::HasFacts),
        Some(false) => Ok(Outcome::Deleted),
    }
}

} // verus!
