//! Uploading files to a commission.
use vstd::prelude::*;
use crate::commission::CommissionError;

verus! {

/// Result of uploading a file.
pub struct UploadFileResult;

/// Uploading a file: the user and the commission must exist and the user
/// must take part in it.
pub fn decide_upload(user_found: bool, commission_found: bool, participates: bool) -> (r: Result<
    (),
    CommissionError,
>)
    ensures
        !user_found ==> r matches Err(CommissionError::UserNotFound),
        user_found && !commission_found ==> r matches Err(CommissionError::CommissionNotFound),
        user_found && commission_found && !participates ==> r matches Err(
            CommissionError::NotAMember,
        ),
        user_found && commission_found && participates ==> r is Ok,
{
    if !user_found {
        Err(CommissionError::UserNotFound)
    } else if !commission_found {
        Err(CommissionError::CommissionNotFound)
    } else if !participates {
        Err(CommissionError::NotAMember)
    } else {
        Ok(())
    }
}

} // verus!
