//! Attaching notes to a commission's changelog.
use vstd::prelude::*;
use vstd::string::*;
use crate::commission::CommissionError;
use crate::text::{trim_white_space, trim_ws};

verus! {

broadcast use vstd::string::group_string_axioms;

/// The text of a note: only a participant may attach one, and its content
/// is trimmed of white space and must not be empty.
pub fn note_text(actor_participates: bool, content: &str) -> (r: Result<String, CommissionError>)
    ensures
        !actor_participates ==> r matches Err(CommissionError::NotAMember),
        actor_participates && trim_ws(content@).len() == 0 ==> r matches Err(
            CommissionError::IncorrectContent,
        ),
        actor_participates && trim_ws(content@).len() > 0 ==> (r matches Ok(t) && t@ == trim_ws(
            content@,
        )),
{
    if !actor_participates {
        return Err(CommissionError::NotAMember);
    }
    let t = trim_white_space(content);
    if t.unicode_len() == 0 {
        return Err(CommissionError::IncorrectContent);
    }
    Ok(t.to_string())
}

} // verus!
