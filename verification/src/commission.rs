//! Commission rules: the checks of each commission use case, the changelog
//! events they record, and the namespaces the use cases hang from.
pub mod archive;
pub mod changelog;
pub mod deadline;
pub mod delete;
pub mod direction;
pub mod files;
pub mod invitations;
pub mod maturity;
pub mod notes;
pub mod view;

use vstd::prelude::*;

verus! {

/// Why a commission use case could not answer.
#[derive(Debug)]
pub enum CommissionError {
    CommissionNotFound,
    CommissionAlreadyAtState,
    InsufficientPermissions,
    UserNotFound,
    NotAMember,
    InvalidStateRequested,
    SeatNotFound,
    IncorrectContent,
    Infrastructure(anyhow::Error),
}

impl From<anyhow::Error> for CommissionError {
    fn from(err: anyhow::Error) -> (r: Self) {
        CommissionError::Infrastructure(err)
    }
}

impl vstd::std_specs::convert::FromSpecImpl<anyhow::Error> for CommissionError {
    open spec fn obeys_from_spec() -> bool {
        true
    }

    open spec fn from_spec(v: anyhow::Error) -> Self {
        CommissionError::Infrastructure(v)
    }
}

/// Commission use cases, bound to the ports `P` they run over.
pub struct Commissions<'a, P> {
    ports: &'a P,
}

impl<'a, P> Commissions<'a, P> {
    pub closed spec fn spec_ports(&self) -> &'a P {
        self.ports
    }

    /// Bind the namespace to the ports.
    pub fn new(ports: &'a P) -> (r: Self)
        ensures
            r.spec_ports() == ports,
    {
        Commissions { ports }
    }

    /// The ports this namespace was built over.
    pub fn ports(&self) -> (r: &'a P)
        ensures
            r == self.spec_ports(),
    {
        self.ports
    }
}

/// An instant: seconds since the Unix epoch and nanoseconds within it.
#[derive(Debug, Clone, Copy, PartialEq, Eq, Structural)]
pub struct Instant {
    pub secs: i64,
    pub nanos: u32,
}

/// `a` comes after `b`.
pub open spec fn is_after(a: Instant, b: Instant) -> bool {
    a.secs > b.secs || (a.secs == b.secs && a.nanos > b.nanos)
}

/// Executable form of [`is_after`].
pub fn after(a: Instant, b: Instant) -> (r: bool)
    ensures
        r == is_after(a, b),
{
    a.secs > b.secs || (a.secs == b.secs && a.nanos > b.nanos)
}

/// The kinds of changelog events the commission use cases record.
#[derive(Debug, Clone, Copy, PartialEq, Eq, Structural)]
pub enum ChangelogEntryKind {
    Created,
    Archived,
    DeadlineSet,
    DeadlineExtended,
    Delayed,
    StatusChanged,
    ViewGrantIssued,
    ViewGrantRevoked,
}

/// The user a commission use case acts as; an unknown one is an error.
pub fn found_user<U>(user: Option<U>) -> (r: Result<U, CommissionError>)
    ensures
        match user {
            Some(u) => r matches Ok(v) && v == u,
            None => r matches Err(CommissionError::UserNotFound),
        },
{
    match user {
        Some(u) => Ok(u),
        None => Err(CommissionError::UserNotFound),
    }
}

/// The commission a use case acts on; an unknown one is an error.
pub fn found_commission<C>(commission: Option<C>) -> (r: Result<C, CommissionError>)
    ensures
        match commission {
            Some(c) => r matches Ok(v) && v == c,
            None => r matches Err(CommissionError::CommissionNotFound),
        },
{
    match commission {
        Some(c) => Ok(c),
        None => Err(CommissionError::CommissionNotFound),
    }
}

} // verus!
