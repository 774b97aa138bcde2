//! Setting and clearing a commission's deadline.
pub mod status;

use vstd::prelude::*;
use crate::commission::{after, is_after, ChangelogEntryKind, CommissionError, Commissions, Instant};

verus! {

impl<'a, P> Commissions<'a, P> {
    /// The deadline use cases of these commissions.
    pub fn deadline(&'a self) -> (r: Deadline<'a, P>)
        ensures
            r.spec_commissions() == self,
            r.spec_ports() == self.spec_ports(),
    {
        Deadline { commissions: self }
    }
}

/// Deadline use cases, over the commission namespace they came from.
pub struct Deadline<'a, P> {
    commissions: &'a Commissions<'a, P>,
}

impl<'a, P> Deadline<'a, P> {
    pub closed spec fn spec_commissions(&self) -> &'a Commissions<'a, P> {
        self.commissions
    }

    pub open spec fn spec_ports(&self) -> &'a P {
        self.spec_commissions().spec_ports()
    }

    /// The ports of the commission namespace.
    pub fn ports(&self) -> (r: &'a P)
        ensures
            r == self.spec_ports(),
    {
        self.commissions.ports()
    }
}

/// How far a commission's deadline has slipped.
#[derive(Debug, Clone, Copy, PartialEq, Eq, Structural)]
pub enum DeadlineStatus {
    Delayed,
    Late,
}

/// A deadline change to record: its kind and the deadline before and after.
#[derive(Debug, Clone, Copy)]
pub struct DeadlineEvent {
    pub kind: ChangelogEntryKind,
    pub from: Option<Instant>,
    pub to: Option<Instant>,
}

/// What the deadline rules read of a commission: its deadline and the
/// deadline's status.
#[derive(Debug, Clone, Copy)]
pub struct DeadlineFacts {
    pub deadline: Option<Instant>,
    pub status: Option<DeadlineStatus>,
}

/// The event a deadline change records: extended when it moves an existing
/// deadline later, set otherwise.
pub open spec fn deadline_change_kind(old: Option<Instant>, new: Instant) -> ChangelogEntryKind {
    match old {
        Some(o) => if is_after(new, o) {
            ChangelogEntryKind::DeadlineExtended
        } else {
            ChangelogEntryKind::DeadlineSet
        },
        None => ChangelogEntryKind::DeadlineSet,
    }
}

/// The outcome of setting a deadline. `commission` is `None` when not
/// found (reported as an unknown user); the actor must take part in it; a
/// commission whose deadline is the instant `now` is already at that state;
/// otherwise the change is recorded as extended or set.
pub open spec fn set_deadline_outcome(
    commission: Option<DeadlineFacts>,
    actor_participates: bool,
    deadline: Instant,
    now: Instant,
) -> Result<DeadlineEvent, CommissionError> {
    match commission {
        None => Err(CommissionError::UserNotFound),
        Some(c) => if !actor_participates {
            Err(CommissionError::NotAMember)
        } else if c.deadline == Some(now) {
            Err(CommissionError::CommissionAlreadyAtState)
        } else {
            Ok(
                DeadlineEvent {
                    kind: deadline_change_kind(c.deadline, deadline),
                    from: c.deadline,
                    to: Some(deadline),
                },
            )
        },
    }
}

/// Decide setting a deadline, as [`set_deadline_outcome`] says.
pub fn decide_set_deadline(
    commission: Option<DeadlineFacts>,
    actor_participates: bool,
    deadline: Instant,
    now: Instant,
) -> (r: Result<DeadlineEvent, CommissionError>)
    ensures
        r == set_deadline_outcome(commission, actor_participates, deadline, now),
{
    let c = match commission {
        None => {
            return Err(CommissionError::UserNotFound);
        },
        Some(c) => c,
    };
    if !actor_participates {
        return Err(CommissionError::NotAMember);
    }
    if let Some(d) = c.deadline {
        if d.secs == now.secs && d.nanos == now.nanos {
            return Err(CommissionError::CommissionAlreadyAtState);
        }
    }
    let kind = match c.deadline {
        Some(old) => {
            if after(deadline, old) {
                ChangelogEntryKind::DeadlineExtended
            } else {
                ChangelogEntryKind::DeadlineSet
            }
        },
        None => ChangelogEntryKind::DeadlineSet,
    };
    Ok(DeadlineEvent { kind, from: c.deadline, to: Some(deadline) })
}

/// The outcome of clearing a deadline: the commission must exist, the
/// actor must take part in it, and there must be a deadline to clear.
pub open spec fn clear_deadline_outcome(commission: Option<DeadlineFacts>, actor_participates: bool) -> Result<
    DeadlineEvent,
    CommissionError,
> {
    match commission {
        None => Err(CommissionError::CommissionNotFound),
        Some(c) => if !actor_participates {
            Err(CommissionError::NotAMember)
        } else if c.deadline is None {
            Err(CommissionError::CommissionAlreadyAtState)
        } else {
            Ok(DeadlineEvent { kind: ChangelogEntryKind::DeadlineSet, from: c.deadline, to: None })
        },
    }
}

/// Decide clearing a deadline, as [`clear_deadline_outcome`] says.
pub fn decide_clear_deadline(commission: Option<DeadlineFacts>, actor_participates: bool) -> (r:
    Result<DeadlineEvent, CommissionError>)
    ensures
        r == clear_deadline_outcome(commission, actor_participates),
{
    let c = match commission {
        None => {
            return Err(CommissionError::CommissionNotFound);
        },
        Some(c) => c,
    };
    if !actor_participates {
        return Err(CommissionError::NotAMember);
    }
    if c.deadline.is_none() {
        return Err(CommissionError::CommissionAlreadyAtState);
    }
    Ok(DeadlineEvent { kind: ChangelogEntryKind::DeadlineSet, from: c.deadline, to: None })
}

/// A deadline that was just set can be cleared by a participant, and the
/// clearing records the deadline that was set.
pub proof fn law_clear_after_set(c: DeadlineFacts, deadline: Instant, now: Instant)
    requires
        set_deadline_outcome(Some(c), true, deadline, now) is Ok,
    ensures
        clear_deadline_outcome(Some(DeadlineFacts { deadline: Some(deadline), status: c.status }), true)
            == Ok::<DeadlineEvent, CommissionError>(
            DeadlineEvent { kind: ChangelogEntryKind::DeadlineSet, from: Some(deadline), to: None },
        ),
{
}

/// Moving an existing deadline later is recorded as an extension; any other
/// change as a plain set.
pub proof fn law_extension_is_later(c: DeadlineFacts, deadline: Instant, now: Instant)
    requires
        set_deadline_outcome(Some(c), true, deadline, now) matches Ok(e),
    ensures
        set_deadline_outcome(Some(c), true, deadline, now)->Ok_0.kind
            == ChangelogEntryKind::DeadlineExtended <==> (c.deadline matches Some(o) && is_after(
            deadline,
            o,
        )),
{
}

/// Instants are ordered by time: `after` holds exactly when the first one
/// lies later, counted in nanoseconds.
pub proof fn law_after_is_chronological(a: Instant, b: Instant, r: bool)
    requires
        a.nanos < 1_000_000_000,
        b.nanos < 1_000_000_000,
        call_ensures(after, (a, b), r),
    ensures
        r <==> a.secs * 1_000_000_000 + a.nanos > b.secs * 1_000_000_000 + b.nanos,
{
}

/// Setting a deadline is recorded as an extension exactly when the
/// commission had a deadline and the new one lies later in time; a deadline
/// moved earlier, or a first deadline, is a plain set. The change records
/// the old and the new deadline.
pub proof fn law_set_deadline_kind(
    c: DeadlineFacts,
    deadline: Instant,
    now: Instant,
    r: Result<DeadlineEvent, CommissionError>,
)
    requires
        deadline.nanos < 1_000_000_000,
        c.deadline matches Some(o) ==> o.nanos < 1_000_000_000,
        c.deadline != Some(now),
        call_ensures(decide_set_deadline, (Some(c), true, deadline, now), r),
    ensures
        r matches Ok(e) && e.from == c.deadline && e.to == Some(deadline),
        r matches Ok(e) && (e.kind == ChangelogEntryKind::DeadlineExtended <==> (
        c.deadline matches Some(o) && deadline.secs * 1_000_000_000 + deadline.nanos > o.secs
            * 1_000_000_000 + o.nanos)),
        r matches Ok(e) && (e.kind == ChangelogEntryKind::DeadlineExtended || e.kind
            == ChangelogEntryKind::DeadlineSet),
{
}

} // verus!
