//! Issuing and revoking seat invitations.
use vstd::prelude::*;
use crate::commission::CommissionError;
use crate::step::Step;

verus! {

/// What issuing a seat invitation answered: a new invitation, or one that
/// was already pending.
#[derive(Debug, Clone, Copy, PartialEq, Eq, Structural)]
pub enum IssueOutcome {
    Created,
    PreExisting,
}

/// What revoking a seat invitation does.
#[derive(Debug, Clone, Copy, PartialEq, Eq, Structural)]
pub enum SeatRevocation {
    /// No invitation is pending: nothing to do.
    NothingPending,
    /// Revoke the pending invitation.
    Revoke,
}

/// What the seat rules read of a seat: whether it is the seat asked for,
/// and whether it is vacant.
#[derive(Debug, Clone, Copy)]
pub struct SeatFacts {
    pub is_requested: bool,
    pub vacant: bool,
}

/// The first seat that is the requested one and vacant.
pub open spec fn is_first_vacant_match(seats: Seq<SeatFacts>, i: int) -> bool {
    &&& 0 <= i < seats.len()
    &&& seats[i].is_requested && seats[i].vacant
    &&& forall|k: int| 0 <= k < i ==> !(#[trigger] seats[k].is_requested && seats[k].vacant)
}

/// The seat an invitation goes to: the first seat that is the requested one
/// and vacant; none is an error.
pub fn find_vacant_seat(seats: &Vec<SeatFacts>) -> (r: Result<usize, CommissionError>)
    ensures
        match r {
            Ok(i) => is_first_vacant_match(seats@, i as int),
            Err(e) => e is SeatNotFound && forall|k: int|
                0 <= k < seats@.len() ==> !(#[trigger] seats@[k].is_requested && seats@[k].vacant),
        },
{
    let n = seats.len();
    let mut i: usize = 0;
    while i < n
        invariant
            n == seats@.len(),
            i <= n,
            forall|k: int| 0 <= k < i ==> !(#[trigger] seats@[k].is_requested && seats@[k].vacant),
        decreases n - i,
    {
        if seats[i].is_requested && seats[i].vacant {
            return Ok(i);
        }
        i = i + 1;
    }
    Err(CommissionError::SeatNotFound)
}

/// Whether some seat is the requested one.
pub fn seat_exists(seats: &Vec<SeatFacts>) -> (r: bool)
    ensures
        r == exists|k: int| 0 <= k < seats@.len() && #[trigger] seats@[k].is_requested,
{
    let n = seats.len();
    let mut i: usize = 0;
    while i < n
        invariant
            n == seats@.len(),
            i <= n,
            forall|k: int| 0 <= k < i ==> !#[trigger] seats@[k].is_requested,
        decreases n - i,
    {
        if seats[i].is_requested {
            return true;
        }
        i = i + 1;
    }
    false
}

/// An invitation is issued for a commission owned by the invited actor.
/// `commission` is `None` when not found, else whether the invited actor
/// owns it.
pub fn decide_issue_invitation(commission: Option<bool>) -> (r: Result<(), CommissionError>)
    ensures
        commission is None ==> r matches Err(CommissionError::CommissionNotFound),
        commission == Some(false) ==> r matches Err(CommissionError::InsufficientPermissions),
        commission == Some(true) ==> r is Ok,
{
    match commission {
        None => Err(CommissionError::CommissionNotFound),
        Some(false) => Err(CommissionError::InsufficientPermissions),
        Some(true) => Ok(()),
    }
}

/// What issuing answered after the new invitation was stored: the pending
/// invitation read back is the new one (or none was read back), or another
/// one won the race. `stored` is `None` when none was read back, else
/// whether the one read back is the one minted.
pub fn issued_outcome(stored: Option<bool>) -> (r: IssueOutcome)
    ensures
        r == IssueOutcome::PreExisting <==> stored == Some(false),
{
    match stored {
        Some(false) => IssueOutcome::PreExisting,
        _ => IssueOutcome::Created,
    }
}

/// The facts issuing a seat invitation reads, in order; `None` marks one
/// not read yet.
pub struct IssueReads {
    /// `Some(None)` when the commission is unknown, else whether the invited
    /// actor owns it.
    pub commission: Option<Option<bool>>,
    /// The commission's seats (read once the invited user is provisioned).
    pub seats: Option<Vec<SeatFacts>>,
    /// Whether an invitation to the seat was already pending for the user.
    pub pending_before: Option<bool>,
    /// After the new invitation was stored: `Some(None)` when no pending
    /// invitation was read back, else whether the one read back is the new
    /// one.
    pub stored_after: Option<Option<bool>>,
}

/// What issuing a seat invitation does next.
#[derive(Debug)]
pub enum IssueStep {
    ReadCommission,
    /// Provision the invited user, then read the commission's seats.
    ReadSeats,
    /// Read the invitation pending for the user on the seat at this index.
    ReadPending(usize),
    /// Store a new invitation to the seat at this index, then read the
    /// pending one back.
    Create(usize),
    /// The seat's index and what was issued, or the refusal.
    Answer(Result<(usize, IssueOutcome), CommissionError>),
}

/// No seat is both the requested one and vacant.
pub open spec fn no_vacant_match(seats: Seq<SeatFacts>) -> bool {
    forall|k: int| 0 <= k < seats.len() ==> !(#[trigger] seats[k].is_requested && seats[k].vacant)
}

/// The next step of issuing a seat invitation: the invited actor must own
/// the commission; the invitation goes to the first vacant seat that is
/// the requested one; an invitation already pending there is answered as
/// it is, else a new one is stored and the one read back decides whether it
/// was created or another won the race.
pub fn issue_invitation_step(reads: &IssueReads) -> (r: IssueStep)
    ensures
        match reads.commission {
            None => r is ReadCommission,
            Some(None) => r matches IssueStep::Answer(Err(CommissionError::CommissionNotFound)),
            Some(Some(false)) => r matches IssueStep::Answer(
                Err(CommissionError::InsufficientPermissions),
            ),
            Some(Some(true)) => match reads.seats {
                None => r is ReadSeats,
                Some(seats) => if no_vacant_match(seats@) {
                    r matches IssueStep::Answer(Err(CommissionError::SeatNotFound))
                } else {
                    match reads.pending_before {
                        None => r matches IssueStep::ReadPending(i) && is_first_vacant_match(
                            seats@,
                            i as int,
                        ),
                        Some(true) => r matches IssueStep::Answer(Ok((i, o)))
                            && is_first_vacant_match(seats@, i as int) && o
                            == IssueOutcome::PreExisting,
                        Some(false) => match reads.stored_after {
                            None => r matches IssueStep::Create(i) && is_first_vacant_match(
                                seats@,
                                i as int,
                            ),
                            Some(st) => r matches IssueStep::Answer(Ok((i, o)))
                                && is_first_vacant_match(seats@, i as int) && (o
                                == IssueOutcome::PreExisting <==> st == Some(false)),
                        },
                    }
                },
            },
        },
{
    let owned = match reads.commission {
        None => {
            return IssueStep::ReadCommission;
        },
        Some(c) => c,
    };
    if let Err(e) = decide_issue_invitation(owned) {
        return IssueStep::Answer(Err(e));
    }
    let seats = match &reads.seats {
        None => {
            return IssueStep::ReadSeats;
        },
        Some(seats) => seats,
    };
    let i = match find_vacant_seat(seats) {
        Err(e) => {
            return IssueStep::Answer(Err(e));
        },
        Ok(i) => i,
    };
    match reads.pending_before {
        None => IssueStep::ReadPending(i),
        Some(true) => IssueStep::Answer(Ok((i, IssueOutcome::PreExisting))),
        Some(false) => match reads.stored_after {
            None => IssueStep::Create(i),
            Some(st) => IssueStep::Answer(Ok((i, issued_outcome(st)))),
        },
    }
}

/// Issuing stores a new invitation only when none was pending for the user
/// on the seat, and only once.
pub proof fn law_issue_never_duplicates(reads: IssueReads, r: IssueStep)
    requires
        call_ensures(issue_invitation_step, (&reads,), r),
        r is Create,
    ensures
        reads.pending_before == Some(false),
        reads.stored_after is None,
{
}

/// The facts revoking a seat invitation reads; `None` marks one not read.
pub struct SeatRevocationReads {
    /// Whether the commission exists and the actor owns it.
    pub owned_by_actor: Option<bool>,
    /// Whether the commission has the seat.
    pub seat_found: Option<bool>,
    /// `Some(None)` when nothing is pending, else whether the pending
    /// invitation can be revoked now.
    pub pending: Option<Option<bool>>,
}

/// The fact revoking a seat invitation reads next.
#[derive(Debug, Clone, Copy, PartialEq, Eq, Structural)]
pub enum SeatRevocationRead {
    Commission,
    Seats,
    PendingInvitation,
}

/// The next step of revoking a seat invitation: the actor must own the
/// commission (an unknown commission is refused the same way), the seat
/// must exist; with nothing pending there is nothing to do; a pending
/// invitation that cannot be revoked is an invalid state.
pub fn revoke_seat_invitation_step(reads: &SeatRevocationReads) -> (r: Step<
    SeatRevocationRead,
    SeatRevocation,
    CommissionError,
>)
    ensures
        match reads.owned_by_actor {
            None => r matches Step::Read(SeatRevocationRead::Commission),
            Some(false) => r matches Step::Answer(Err(CommissionError::InsufficientPermissions)),
            Some(true) => match reads.seat_found {
                None => r matches Step::Read(SeatRevocationRead::Seats),
                Some(false) => r matches Step::Answer(Err(CommissionError::SeatNotFound)),
                Some(true) => match reads.pending {
                    None => r matches Step::Read(SeatRevocationRead::PendingInvitation),
                    Some(None) => r matches Step::Answer(Ok(SeatRevocation::NothingPending)),
                    Some(Some(true)) => r matches Step::Answer(Ok(SeatRevocation::Revoke)),
                    Some(Some(false)) => r matches Step::Answer(
                        Err(CommissionError::InvalidStateRequested),
                    ),
                },
            },
        },
{
    match reads.owned_by_actor {
        None => Step::Read(SeatRevocationRead::Commission),
        Some(false) => Step::Answer(Err(CommissionError::InsufficientPermissions)),
        Some(true) => match reads.seat_found {
            None => Step::Read(SeatRevocationRead::Seats),
            Some(false) => Step::Answer(Err(CommissionError::SeatNotFound)),
            Some(true) => match reads.pending {
                None => Step::Read(SeatRevocationRead::PendingInvitation),
                Some(None) => Step::Answer(Ok(SeatRevocation::NothingPending)),
                Some(Some(true)) => Step::Answer(Ok(SeatRevocation::Revoke)),
                Some(Some(false)) => Step::Answer(Err(CommissionError::InvalidStateRequested)),
            },
        },
    }
}

} // verus!
