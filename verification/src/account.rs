//! Account rules: handle changes, role grants and revocations, invitation
//! revocation, and the projections the command line prints.
use vstd::prelude::*;
use vstd::string::*;
use crate::step::Step;

verus! {

broadcast use vstd::string::group_string_axioms;

/// The error type of the infrastructure ports, carried through unchanged.
#[verifier::external_type_specification]
#[verifier::external_body]
pub struct ExInfrastructureError(anyhow::Error);

/// Why an account use case could not answer.
#[derive(Debug)]
pub enum AccountError {
    /// The handle is claimed: by a live account, a tombstoned one, or
    /// quarantined to the account that vacated it.
    HandleTaken,
    /// The handle's namespace isn't supported for this operation.
    UnsupportedHandle,
    /// A port failed; nothing was persisted, the caller may retry.
    Infrastructure(anyhow::Error),
    /// The actor's role on the account doesn't carry the authority this use
    /// case needs, including holding no role at all.
    IncorrectRole,
    /// The account named by the command is not a live account.
    AccountNotFound,
    /// The target handle is already the account's current one.
    HandleUnchanged,
    /// The account has changed its handle too often recently.
    RenamedTooRecently,
    /// The actor holds no pending invitation into the account.
    NoPendingInvitation,
    /// The actor holds no membership in the account.
    NotAMember,
    /// The Owner can't leave while still Owner.
    OwnerCannotLeave,
    /// Owner can't be granted; ownership is transferred instead.
    IncorrectTransferOfAccount,
    /// The grantee's DID is interned as a non-User actor.
    DidBelongsToAnotherActor,
    AlreadyMember,
    CannotTransferToSelf,
    UserNotFound,
    InvitationAlreadyPending,
}

impl AccountError {
    /// The terse text the error displays. It never quotes the cause of an
    /// infrastructure failure: a store error can carry SQL, constraint
    /// names or custody paths. `None` for a taken handle, which displays the
    /// text of the store's own handle-taken refusal.
    pub fn message(&self) -> (r: Option<&'static str>)
        ensures
            match self {
                AccountError::HandleTaken => r is None,
                AccountError::UnsupportedHandle => r matches Some(m)
                    && m@ == "This handle's namespace isn't supported for this operation"@,
                AccountError::Infrastructure(_) => r matches Some(m) && m@
                    == "an infrastructure port failed"@,
                AccountError::IncorrectRole => r matches Some(m) && m@
                    == "This role can't perform this action"@,
                AccountError::AccountNotFound => r matches Some(m) && m@
                    == "This account does not exist"@,
                AccountError::HandleUnchanged => r matches Some(m) && m@ == "Nothing to do"@,
                AccountError::RenamedTooRecently => r matches Some(m) && m@ == "Rate limited"@,
                AccountError::NoPendingInvitation => r matches Some(m) && m@
                    == "No pending invitation"@,
                AccountError::NotAMember => r matches Some(m) && m@
                    == "Not a member of this account"@,
                AccountError::OwnerCannotLeave => r matches Some(m) && m@
                    == "The Owner can't leave; transfer or delete the account first"@,
                AccountError::IncorrectTransferOfAccount => r matches Some(m) && m@
                    == "Owner can't be granted; transfer ownership instead"@,
                AccountError::DidBelongsToAnotherActor => r matches Some(m) && m@
                    == "That DID belongs to another kind of actor"@,
                AccountError::AlreadyMember => r matches Some(m) && m@ == "Already a member"@,
                AccountError::CannotTransferToSelf => r matches Some(m) && m@
                    == "Already the owner"@,
                AccountError::UserNotFound => r matches Some(m) && m@ == "User not found!"@,
                AccountError::InvitationAlreadyPending => r matches Some(m) && m@
                    == "An invitation was already pending"@,
            },
    {
        match self {
            AccountError::HandleTaken => None,
            AccountError::UnsupportedHandle => Some(
                "This handle's namespace isn't supported for this operation",
            ),
            AccountError::Infrastructure(_) => Some("an infrastructure port failed"),
            AccountError::IncorrectRole => Some("This role can't perform this action"),
            AccountError::AccountNotFound => Some("This account does not exist"),
            AccountError::HandleUnchanged => Some("Nothing to do"),
            AccountError::RenamedTooRecently => Some("Rate limited"),
            AccountError::NoPendingInvitation => Some("No pending invitation"),
            AccountError::NotAMember => Some("Not a member of this account"),
            AccountError::OwnerCannotLeave => Some(
                "The Owner can't leave; transfer or delete the account first",
            ),
            AccountError::IncorrectTransferOfAccount => Some(
                "Owner can't be granted; transfer ownership instead",
            ),
            AccountError::DidBelongsToAnotherActor => Some("That DID belongs to another kind of actor"),
            AccountError::AlreadyMember => Some("Already a member"),
            AccountError::CannotTransferToSelf => Some("Already the owner"),
            AccountError::UserNotFound => Some("User not found!"),
            AccountError::InvitationAlreadyPending => Some("An invitation was already pending"),
        }
    }

    /// The problem code the command line reports the error under.
    pub open spec fn problem_code_of(self) -> Seq<char> {
        match self {
            AccountError::HandleTaken => "handle_taken"@,
            AccountError::UnsupportedHandle => "unsupported_handle"@,
            AccountError::Infrastructure(_) => "internal_error"@,
            AccountError::IncorrectRole => "forbidden"@,
            AccountError::AccountNotFound => "account_not_found"@,
            AccountError::HandleUnchanged => "invalid_request"@,
            AccountError::RenamedTooRecently => "rate_limited"@,
            AccountError::NoPendingInvitation => "no_pending_invitation"@,
            AccountError::NotAMember => "member_not_found"@,
            AccountError::OwnerCannotLeave => "owner_cannot_leave"@,
            AccountError::IncorrectTransferOfAccount => "forbidden"@,
            AccountError::DidBelongsToAnotherActor => "did_belongs_to_another_actor"@,
            AccountError::AlreadyMember => "already_member"@,
            AccountError::CannotTransferToSelf => "invalid_request"@,
            AccountError::UserNotFound => "user_not_found"@,
            AccountError::InvitationAlreadyPending => "invitation_already_pending"@,
        }
    }

    /// The problem code the command line reports the error under; an
    /// infrastructure failure is `internal_error`, the rest are refusals.
    pub fn problem_code(&self) -> (r: &'static str)
        ensures
            r@ == self.problem_code_of(),
    {
        match self {
            AccountError::HandleTaken => "handle_taken",
            AccountError::UnsupportedHandle => "unsupported_handle",
            AccountError::Infrastructure(_) => "internal_error",
            AccountError::IncorrectRole => "forbidden",
            AccountError::AccountNotFound => "account_not_found",
            AccountError::HandleUnchanged => "invalid_request",
            AccountError::RenamedTooRecently => "rate_limited",
            AccountError::NoPendingInvitation => "no_pending_invitation",
            AccountError::NotAMember => "member_not_found",
            AccountError::OwnerCannotLeave => "owner_cannot_leave",
            AccountError::IncorrectTransferOfAccount => "forbidden",
            AccountError::DidBelongsToAnotherActor => "did_belongs_to_another_actor",
            AccountError::AlreadyMember => "already_member",
            AccountError::CannotTransferToSelf => "invalid_request",
            AccountError::UserNotFound => "user_not_found",
            AccountError::InvitationAlreadyPending => "invitation_already_pending",
        }
    }

    /// Whether the error carries an underlying cause: only infrastructure
    /// failures do.
    pub fn has_source(&self) -> (r: bool)
        ensures
            r <==> self is Infrastructure,
    {
        match self {
            AccountError::Infrastructure(_) => true,
            _ => false,
        }
    }
}

impl From<anyhow::Error> for AccountError {
    fn from(err: anyhow::Error) -> (r: Self) {
        AccountError::Infrastructure(err)
    }
}

impl vstd::std_specs::convert::FromSpecImpl<anyhow::Error> for AccountError {
    open spec fn obeys_from_spec() -> bool {
        true
    }

    open spec fn from_spec(v: anyhow::Error) -> Self {
        AccountError::Infrastructure(v)
    }
}

/// The facts a handle change reads, in order: the account (`None` when
/// unknown, else whether the new handle is its current one), whether the
/// actor is the account's Owner, the handle changes within the rate-limit
/// window, whether a DID carries the new handle, whether the handle is
/// quarantined for another account. `None` marks a fact not read yet.
pub struct HandleChangeReads {
    pub account: Option<Option<bool>>,
    pub actor_is_owner: Option<bool>,
    pub recent_changes: Option<u64>,
    pub bound_to_did: Option<bool>,
    pub reserved_for_other: Option<bool>,
}

/// The fact a handle change reads next.
#[derive(Debug, Clone, Copy, PartialEq, Eq, Structural)]
pub enum HandleChangeRead {
    Account,
    ActorRole,
    RecentChanges,
    HandleDid,
    HandleReservation,
}

/// A handle change is allowed when the handle lies in the supported
/// namespace, the account exists, the handle is new for it, the actor owns
/// it, fewer changes than the limit happened within the window, and no DID
/// carries the handle nor is it reserved for another account.
pub open spec fn change_handle_allowed(
    in_namespace: bool,
    change_limit: u64,
    same_as_current: bool,
    actor_is_owner: bool,
    recent_changes: u64,
    bound_to_did: bool,
    reserved_for_other: bool,
) -> bool {
    in_namespace && !same_as_current && actor_is_owner && recent_changes < change_limit
        && !bound_to_did && !reserved_for_other
}

/// The next step of a handle change: checks run in the order namespace,
/// account, unchanged handle, Owner role, rate limit, DID binding,
/// reservation; each reads its fact first. An `Ok` answer means: update the
/// handle at the DID minter, record the change, commit.
pub fn change_handle_step(in_namespace: bool, change_limit: u64, reads: &HandleChangeReads) -> (r:
    Step<HandleChangeRead, (), AccountError>)
    ensures
        !in_namespace ==> r matches Step::Answer(Err(AccountError::UnsupportedHandle)),
        in_namespace ==> match reads.account {
            None => r matches Step::Read(HandleChangeRead::Account),
            Some(None) => r matches Step::Answer(Err(AccountError::AccountNotFound)),
            Some(Some(true)) => r matches Step::Answer(Err(AccountError::HandleUnchanged)),
            Some(Some(false)) => match reads.actor_is_owner {
                None => r matches Step::Read(HandleChangeRead::ActorRole),
                Some(false) => r matches Step::Answer(Err(AccountError::IncorrectRole)),
                Some(true) => match reads.recent_changes {
                    None => r matches Step::Read(HandleChangeRead::RecentChanges),
                    Some(n) => if n >= change_limit {
                        r matches Step::Answer(Err(AccountError::RenamedTooRecently))
                    } else {
                        match reads.bound_to_did {
                            None => r matches Step::Read(HandleChangeRead::HandleDid),
                            Some(true) => r matches Step::Answer(Err(AccountError::HandleTaken)),
                            Some(false) => match reads.reserved_for_other {
                                None => r matches Step::Read(HandleChangeRead::HandleReservation),
                                Some(true) => r matches Step::Answer(Err(AccountError::HandleTaken)),
                                Some(false) => r matches Step::Answer(Ok(())),
                            },
                        }
                    },
                },
            },
        },
{
    if !in_namespace {
        return Step::Answer(Err(AccountError::UnsupportedHandle));
    }
    match reads.account {
        None => {
            return Step::Read(HandleChangeRead::Account);
        },
        Some(None) => {
            return Step::Answer(Err(AccountError::AccountNotFound));
        },
        Some(Some(true)) => {
            return Step::Answer(Err(AccountError::HandleUnchanged));
        },
        Some(Some(false)) => {},
    }
    match reads.actor_is_owner {
        None => {
            return Step::Read(HandleChangeRead::ActorRole);
        },
        Some(false) => {
            return Step::Answer(Err(AccountError::IncorrectRole));
        },
        Some(true) => {},
    }
    match reads.recent_changes {
        None => {
            return Step::Read(HandleChangeRead::RecentChanges);
        },
        Some(n) => {
            if n >= change_limit {
                return Step::Answer(Err(AccountError::RenamedTooRecently));
            }
        },
    }
    match reads.bound_to_did {
        None => {
            return Step::Read(HandleChangeRead::HandleDid);
        },
        Some(true) => {
            return Step::Answer(Err(AccountError::HandleTaken));
        },
        Some(false) => {},
    }
    match reads.reserved_for_other {
        None => Step::Read(HandleChangeRead::HandleReservation),
        Some(true) => Step::Answer(Err(AccountError::HandleTaken)),
        Some(false) => Step::Answer(Ok(())),
    }
}

/// Once every fact is read, a handle change is answered `Ok` exactly when
/// it is allowed; it never asks for a fact it already has.
pub proof fn law_change_handle_answer(
    in_namespace: bool,
    change_limit: u64,
    same_as_current: bool,
    actor_is_owner: bool,
    recent_changes: u64,
    bound_to_did: bool,
    reserved_for_other: bool,
    r: Step<HandleChangeRead, (), AccountError>,
)
    requires
        ({
            let reads = HandleChangeReads {
                account: Some(Some(same_as_current)),
                actor_is_owner: Some(actor_is_owner),
                recent_changes: Some(recent_changes),
                bound_to_did: Some(bound_to_did),
                reserved_for_other: Some(reserved_for_other),
            };
            call_ensures(change_handle_step, (in_namespace, change_limit, &reads), r)
        }),
    ensures
        r is Answer,
        (r matches Step::Answer(Ok(_))) <==> change_handle_allowed(
            in_namespace,
            change_limit,
            same_as_current,
            actor_is_owner,
            recent_changes,
            bound_to_did,
            reserved_for_other,
        ),
{
}

/// The facts a role grant reads, in order, after the pre-check on the role:
/// whether the actor's role may grant the role (`Some(None)`: the actor
/// holds no role), then whether it may grant the target's current role
/// (`Some(None)`: the target holds none). `None` marks a fact not read yet.
pub struct GrantReads {
    pub actor_can_grant_role: Option<Option<bool>>,
    pub actor_can_grant_current: Option<Option<bool>>,
}

/// The fact a role grant reads next.
#[derive(Debug, Clone, Copy, PartialEq, Eq, Structural)]
pub enum GrantRead {
    ActorRole,
    TargetRole,
}

/// The next step of a role grant. Owner is never granted (ownership is
/// transferred); the actor's role must be able to grant the role, and the
/// target's current role if any. An `Ok` answer means: record the grant,
/// commit.
pub fn grant_role_step(granting_owner: bool, reads: &GrantReads) -> (r: Step<GrantRead, (), AccountError>)
    ensures
        granting_owner ==> r matches Step::Answer(Err(AccountError::IncorrectTransferOfAccount)),
        !granting_owner ==> match reads.actor_can_grant_role {
            None => r matches Step::Read(GrantRead::ActorRole),
            Some(Some(true)) => match reads.actor_can_grant_current {
                None => r matches Step::Read(GrantRead::TargetRole),
                Some(Some(false)) => r matches Step::Answer(Err(AccountError::IncorrectRole)),
                Some(_) => r matches Step::Answer(Ok(())),
            },
            Some(_) => r matches Step::Answer(Err(AccountError::IncorrectRole)),
        },
{
    if granting_owner {
        return Step::Answer(Err(AccountError::IncorrectTransferOfAccount));
    }
    match reads.actor_can_grant_role {
        None => Step::Read(GrantRead::ActorRole),
        Some(Some(true)) => match reads.actor_can_grant_current {
            None => Step::Read(GrantRead::TargetRole),
            Some(Some(false)) => Step::Answer(Err(AccountError::IncorrectRole)),
            Some(_) => Step::Answer(Ok(())),
        },
        Some(_) => Step::Answer(Err(AccountError::IncorrectRole)),
    }
}

/// The facts a role revocation reads, in order: whether the target holds a
/// role, then whether the actor's role may grant it (`Some(None)`: the
/// actor holds no role). `None` marks a fact not read yet.
pub struct RevokeRoleReads {
    pub target_has_role: Option<bool>,
    pub actor_can_grant_target_role: Option<Option<bool>>,
}

/// The fact a role revocation reads next.
#[derive(Debug, Clone, Copy, PartialEq, Eq, Structural)]
pub enum RevokeRoleRead {
    TargetRole,
    ActorRole,
}

/// The next step of a role revocation: the target must be a member, and
/// the actor's role must be able to grant the target's role. An `Ok`
/// answer means: remove the role, commit.
pub fn revoke_role_step(reads: &RevokeRoleReads) -> (r: Step<RevokeRoleRead, (), AccountError>)
    ensures
        match reads.target_has_role {
            None => r matches Step::Read(RevokeRoleRead::TargetRole),
            Some(false) => r matches Step::Answer(Err(AccountError::UserNotFound)),
            Some(true) => match reads.actor_can_grant_target_role {
                None => r matches Step::Read(RevokeRoleRead::ActorRole),
                Some(Some(true)) => r matches Step::Answer(Ok(())),
                Some(_) => r matches Step::Answer(Err(AccountError::IncorrectRole)),
            },
        },
{
    match reads.target_has_role {
        None => Step::Read(RevokeRoleRead::TargetRole),
        Some(false) => Step::Answer(Err(AccountError::UserNotFound)),
        Some(true) => match reads.actor_can_grant_target_role {
            None => Step::Read(RevokeRoleRead::ActorRole),
            Some(Some(true)) => Step::Answer(Ok(())),
            Some(_) => Step::Answer(Err(AccountError::IncorrectRole)),
        },
    }
}

/// The facts revoking an account invitation reads, in order: whether the
/// invitee already holds a role; the pending invitation (`Some(None)`:
/// none pending); whether the actor's role may grant the invited role
/// (`Some(None)`: the actor holds no role). `None` marks a fact not read.
pub struct RevokeInvitationReads {
    pub target_is_member: Option<bool>,
    pub invitation_pending: Option<bool>,
    pub actor_can_grant_invited_role: Option<Option<bool>>,
}

/// The fact revoking an account invitation reads next.
#[derive(Debug, Clone, Copy, PartialEq, Eq, Structural)]
pub enum RevokeInvitationRead {
    TargetRole,
    PendingInvitation,
    ActorRole,
}

/// The next step of revoking an account invitation: the invitee must not
/// be a member yet, an invitation must be pending, and the actor's role
/// must be able to grant the invited role. An `Ok` answer means: revoke
/// the invitation, commit.
pub fn revoke_invitation_step(reads: &RevokeInvitationReads) -> (r: Step<
    RevokeInvitationRead,
    (),
    AccountError,
>)
    ensures
        match reads.target_is_member {
            None => r matches Step::Read(RevokeInvitationRead::TargetRole),
            Some(true) => r matches Step::Answer(Err(AccountError::AlreadyMember)),
            Some(false) => match reads.invitation_pending {
                None => r matches Step::Read(RevokeInvitationRead::PendingInvitation),
                Some(false) => r matches Step::Answer(Err(AccountError::NoPendingInvitation)),
                Some(true) => match reads.actor_can_grant_invited_role {
                    None => r matches Step::Read(RevokeInvitationRead::ActorRole),
                    Some(Some(true)) => r matches Step::Answer(Ok(())),
                    Some(_) => r matches Step::Answer(Err(AccountError::NotAMember)),
                },
            },
        },
{
    match reads.target_is_member {
        None => Step::Read(RevokeInvitationRead::TargetRole),
        Some(true) => Step::Answer(Err(AccountError::AlreadyMember)),
        Some(false) => match reads.invitation_pending {
            None => Step::Read(RevokeInvitationRead::PendingInvitation),
            Some(false) => Step::Answer(Err(AccountError::NoPendingInvitation)),
            Some(true) => match reads.actor_can_grant_invited_role {
                None => Step::Read(RevokeInvitationRead::ActorRole),
                Some(Some(true)) => Step::Answer(Ok(())),
                Some(_) => Step::Answer(Err(AccountError::NotAMember)),
            },
        },
    }
}

/// How an account deletion ended: soft when the account holds facts, hard
/// when it was empty.
#[derive(Debug, Clone, Copy, PartialEq, Eq, Structural)]
pub enum DeleteOutcome {
    Soft,
    Hard,
}

/// `create`'s projection: the founded account's id, DID, handle and name.
#[derive(Debug)]
pub struct Founded {
    id: String,
    did: String,
    handle: String,
    name: String,
}

impl Founded {
    /// The projection of a founded account.
    pub fn new(id: String, did: String, handle: String, name: String) -> (r: Founded)
        ensures
            r.id() == id,
            r.did() == did,
            r.handle() == handle,
            r.name() == name,
    {
        Founded { id, did, handle, name }
    }

    pub closed spec fn id(&self) -> String {
        self.id
    }

    pub closed spec fn did(&self) -> String {
        self.did
    }

    pub closed spec fn handle(&self) -> String {
        self.handle
    }

    pub closed spec fn name(&self) -> String {
        self.name
    }

    /// The projection's fields: id, DID, handle, name.
    pub fn into_parts(self) -> (r: (String, String, String, String))
        ensures
            r == (self.id(), self.did(), self.handle(), self.name()),
    {
        (self.id, self.did, self.handle, self.name)
    }
}

/// `delete`'s projection: the outcome, spelled `soft` or `hard`.
#[derive(Debug)]
pub struct Deleted {
    outcome: String,
}

impl Deleted {
    pub closed spec fn outcome(&self) -> String {
        self.outcome
    }

    /// The projection of a deletion's outcome.
    pub fn from_outcome(outcome: DeleteOutcome) -> (r: Deleted)
        ensures
            outcome == DeleteOutcome::Soft ==> r.outcome()@ == "soft"@,
            outcome == DeleteOutcome::Hard ==> r.outcome()@ == "hard"@,
    {
        let text = match outcome {
            DeleteOutcome::Soft => "soft",
            DeleteOutcome::Hard => "hard",
        };
        Deleted { outcome: text.to_string() }
    }

    /// The outcome's spelling.
    pub fn into_outcome(self) -> (r: String)
        ensures
            r == self.outcome(),
    {
        self.outcome
    }
}

} // verus!
