//! Setting a commission's maturity rating.
use vstd::prelude::*;
use crate::commission::CommissionError;

verus! {

/// Setting the maturity rating needs the commission and its owner as actor.
/// `commission` is `None` when not found, else whether the actor owns it.
pub fn decide_set_maturity(commission: Option<bool>) -> (r: Result<(), CommissionError>)
    ensures
        commission is None ==> r matches Err(CommissionError::CommissionNotFound),
        commission == Some(false) ==> r matches Err(CommissionError::InsufficientPermissions),
        commission == Some(true) ==> r is Ok,
{
    match commission {
        None => Err(CommissionError::CommissionNotFound),
        Some(false) => Err(CommissionError::InsufficientPermissions),
        Some(true) => Ok(()),
    }
}

} // verus!
