//! Setting and clearing the status of a commission's deadline.
use vstd::prelude::*;
use crate::commission::{ChangelogEntryKind, CommissionError, Instant};
use crate::commission::deadline::{Deadline, DeadlineFacts, DeadlineStatus};

verus! {

impl<'a, P> Deadline<'a, P> {
    /// The deadline-status use cases.
    pub fn status(&'a self) -> (r: Status<'a, P>)
        ensures
            r.deadline == self,
            r.spec_ports() == self.spec_ports(),
    {
        Status { deadline: self }
    }
}

/// Deadline-status use cases, over the deadline namespace.
pub struct Status<'a, P> {
    pub deadline: &'a Deadline<'a, P>,
}

impl<'a, P> Status<'a, P> {
    pub open spec fn spec_ports(&self) -> &'a P {
        self.deadline.spec_ports()
    }

    /// The ports of the commission namespace.
    pub fn ports(&self) -> (r: &'a P)
        ensures
            r == self.spec_ports(),
    {
        self.deadline.ports()
    }
}

/// A deadline-status change to record: its kind, the status before and
/// after, and the deadline it concerns.
#[derive(Debug, Clone, Copy)]
pub struct DeadlineStatusEvent {
    pub kind: ChangelogEntryKind,
    pub from: Option<DeadlineStatus>,
    pub to: Option<DeadlineStatus>,
    pub deadline: Option<Instant>,
}

/// The outcome of setting a deadline's status: only `Delayed` may be
/// requested; the commission must exist, must not be late already, and
/// must have a deadline; the change is recorded as a delay.
pub open spec fn set_deadline_status_outcome(requested: DeadlineStatus, commission: Option<DeadlineFacts>) -> Result<
    DeadlineStatusEvent,
    CommissionError,
> {
    if requested == DeadlineStatus::Late {
        Err(CommissionError::InvalidStateRequested)
    } else {
        match commission {
            None => Err(CommissionError::CommissionNotFound),
            Some(c) => if c.status == Some(DeadlineStatus::Late) {
                Err(CommissionError::CommissionAlreadyAtState)
            } else if c.deadline is None {
                Err(CommissionError::InvalidStateRequested)
            } else {
                Ok(
                    DeadlineStatusEvent {
                        kind: ChangelogEntryKind::Delayed,
                        from: c.status,
                        to: Some(DeadlineStatus::Delayed),
                        deadline: c.deadline,
                    },
                )
            },
        }
    }
}

/// Decide setting a deadline's status, as [`set_deadline_status_outcome`] says.
pub fn decide_set_deadline_status(requested: DeadlineStatus, commission: Option<DeadlineFacts>) -> (r:
    Result<DeadlineStatusEvent, CommissionError>)
    ensures
        r == set_deadline_status_outcome(requested, commission),
{
    match requested {
        DeadlineStatus::Delayed => {},
        DeadlineStatus::Late => {
            return Err(CommissionError::InvalidStateRequested);
        },
    }
    let c = match commission {
        None => {
            return Err(CommissionError::CommissionNotFound);
        },
        Some(c) => c,
    };
    if let Some(DeadlineStatus::Late) = c.status {
        return Err(CommissionError::CommissionAlreadyAtState);
    }
    if c.deadline.is_none() {
        return Err(CommissionError::InvalidStateRequested);
    }
    Ok(
        DeadlineStatusEvent {
            kind: ChangelogEntryKind::Delayed,
            from: c.status,
            to: Some(DeadlineStatus::Delayed),
            deadline: c.deadline,
        },
    )
}

/// The outcome of clearing a deadline's status: the commission must
/// exist, the actor must take part in it, and there must be a status to
/// clear.
pub open spec fn clear_deadline_status_outcome(commission: Option<DeadlineFacts>, actor_participates: bool) -> Result<
    DeadlineStatusEvent,
    CommissionError,
> {
    match commission {
        None => Err(CommissionError::CommissionNotFound),
        Some(c) => if !actor_participates {
            Err(CommissionError::NotAMember)
        } else if c.status is None {
            Err(CommissionError::CommissionAlreadyAtState)
        } else {
            Ok(
                DeadlineStatusEvent {
                    kind: ChangelogEntryKind::DeadlineSet,
                    from: c.status,
                    to: None,
                    deadline: c.deadline,
                },
            )
        },
    }
}

/// Decide clearing a deadline's status, as [`clear_deadline_status_outcome`] says.
pub fn decide_clear_deadline_status(commission: Option<DeadlineFacts>, actor_participates: bool) -> (r:
    Result<DeadlineStatusEvent, CommissionError>)
    ensures
        r == clear_deadline_status_outcome(commission, actor_participates),
{
    let c = match commission {
        None => {
            return Err(CommissionError::CommissionNotFound);
        },
        Some(c) => c,
    };
    if !actor_participates {
        return Err(CommissionError::NotAMember);
    }
    if c.status.is_none() {
        return Err(CommissionError::CommissionAlreadyAtState);
    }
    Ok(
        DeadlineStatusEvent {
            kind: ChangelogEntryKind::DeadlineSet,
            from: c.status,
            to: None,
            deadline: c.deadline,
        },
    )
}

/// A delay that was just recorded can be cleared by a participant, and the
/// clearing records the delay it lifts.
pub proof fn law_clear_after_delay(c: DeadlineFacts)
    requires
        set_deadline_status_outcome(DeadlineStatus::Delayed, Some(c)) is Ok,
    ensures
        clear_deadline_status_outcome(
            Some(DeadlineFacts { deadline: c.deadline, status: Some(DeadlineStatus::Delayed) }),
            true,
        ) == Ok::<DeadlineStatusEvent, CommissionError>(
            DeadlineStatusEvent {
                kind: ChangelogEntryKind::DeadlineSet,
                from: Some(DeadlineStatus::Delayed),
                to: None,
                deadline: c.deadline,
            },
        ),
{
}

/// A deadline is never made late on request.
pub proof fn law_late_is_never_requested(commission: Option<DeadlineFacts>)
    ensures
        set_deadline_status_outcome(DeadlineStatus::Late, commission)
            == Err::<DeadlineStatusEvent, CommissionError>(CommissionError::InvalidStateRequested),
{
}

/// A participant clears any status a deadline has, delayed or late alike:
/// the change is recorded as a plain deadline set, from that status to none,
/// for the commission's deadline.
pub proof fn law_any_status_is_cleared(c: DeadlineFacts, r: Result<DeadlineStatusEvent, CommissionError>)
    requires
        c.status is Some,
        call_ensures(decide_clear_deadline_status, (Some(c), true), r),
    ensures
        r matches Ok(e) && e.kind == ChangelogEntryKind::DeadlineSet && e.from == c.status && e.to
            is None && e.deadline == c.deadline,
{
}

} // verus!
