//! Reading a commission's changelog.
use vstd::prelude::*;
use crate::commission::CommissionError;

verus! {

/// A changelog entry with its position in the commission's changelog.
pub struct Sequenced<E> {
    pub seq: i64,
    pub entry: E,
}

/// Reading a commission's changelog is for its participants.
pub fn decide_read_changelog(actor_participates: bool) -> (r: Result<(), CommissionError>)
    ensures
        actor_participates <==> r is Ok,
        !actor_participates ==> r matches Err(CommissionError::InsufficientPermissions),
{
    if actor_participates {
        Ok(())
    } else {
        Err(CommissionError::InsufficientPermissions)
    }
}

/// Reading a changelog by the actor's DID: the user must exist, the
/// commission must exist (else the actor is not a member), and the user
/// must take part in it.
pub fn decide_read_changelog_by_user(user_found: bool, commission_found: bool, participates: bool) -> (r:
    Result<(), CommissionError>)
    ensures
        !user_found ==> r matches Err(CommissionError::UserNotFound),
        user_found && !commission_found ==> r matches Err(CommissionError::NotAMember),
        user_found && commission_found && !participates ==> r matches Err(
            CommissionError::InsufficientPermissions,
        ),
        user_found && commission_found && participates ==> r is Ok,
{
    if !user_found {
        Err(CommissionError::UserNotFound)
    } else if !commission_found {
        Err(CommissionError::NotAMember)
    } else if !participates {
        Err(CommissionError::InsufficientPermissions)
    } else {
        Ok(())
    }
}

/// The entries of a changelog numbered by position, from 0, in order.
pub fn number_entries<E>(entries: Vec<E>) -> (r: Vec<Sequenced<E>>)
    requires
        entries@.len() <= i64::MAX,
    ensures
        r@.len() == entries@.len(),
        forall|i: int| 0 <= i < r@.len() ==> (#[trigger] r@[i]).seq == i && r@[i].entry == entries@[i],
{
    let mut out: Vec<Sequenced<E>> = Vec::new();
    let mut rest = entries;
    let ghost orig = rest@;
    let total = rest.len();
    let mut i: usize = 0;
    while rest.len() > 0
        invariant
            orig.len() <= i64::MAX,
            total == orig.len(),
            out@.len() == i,
            i + rest@.len() == orig.len(),
            rest@ == orig.subrange(i as int, orig.len() as int),
            forall|k: int| 0 <= k < i ==> (#[trigger] out@[k]).seq == k && out@[k].entry == orig[k],
        decreases rest@.len(),
    {
        let e = rest.remove(0);
        out.push(Sequenced { seq: i as i64, entry: e });
        i = i + 1;
    }
    out
}

} // verus!
