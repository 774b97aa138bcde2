use application::account::{
    change_handle_step, grant_role_step, revoke_invitation_step, revoke_role_step, AccountError,
    DeleteOutcome, Deleted, Founded, GrantRead, GrantReads, HandleChangeRead, HandleChangeReads,
    RevokeInvitationRead, RevokeInvitationReads, RevokeRoleRead, RevokeRoleReads,
};
use application::step::Step;

fn all_read() -> HandleChangeReads {
    HandleChangeReads {
        account: Some(Some(false)),
        actor_is_owner: Some(true),
        recent_changes: Some(0),
        bound_to_did: Some(false),
        reserved_for_other: Some(false),
    }
}

fn none_read() -> HandleChangeReads {
    HandleChangeReads {
        account: None,
        actor_is_owner: None,
        recent_changes: None,
        bound_to_did: None,
        reserved_for_other: None,
    }
}

fn reads_next(s: Step<HandleChangeRead, (), AccountError>) -> HandleChangeRead {
    match s {
        Step::Read(q) => q,
        Step::Answer(r) => panic!("expected a read, got {:?}", r),
    }
}

#[test]
fn handle_change_reads_in_order() {
    let mut r = none_read();
    assert_eq!(reads_next(change_handle_step(true, 3, &r)), HandleChangeRead::Account);
    r.account = Some(Some(false));
    assert_eq!(reads_next(change_handle_step(true, 3, &r)), HandleChangeRead::ActorRole);
    r.actor_is_owner = Some(true);
    assert_eq!(reads_next(change_handle_step(true, 3, &r)), HandleChangeRead::RecentChanges);
    r.recent_changes = Some(2);
    assert_eq!(reads_next(change_handle_step(true, 3, &r)), HandleChangeRead::HandleDid);
    r.bound_to_did = Some(false);
    assert_eq!(
        reads_next(change_handle_step(true, 3, &r)),
        HandleChangeRead::HandleReservation
    );
    r.reserved_for_other = Some(false);
    assert!(matches!(change_handle_step(true, 3, &r), Step::Answer(Ok(()))));
}

#[test]
fn handle_change_refusals_come_in_order() {
    assert!(matches!(
        change_handle_step(false, 3, &none_read()),
        Step::Answer(Err(AccountError::UnsupportedHandle))
    ));
    let r = HandleChangeReads { account: Some(None), ..none_read() };
    assert!(matches!(
        change_handle_step(true, 3, &r),
        Step::Answer(Err(AccountError::AccountNotFound))
    ));
    let r = HandleChangeReads { account: Some(Some(true)), ..none_read() };
    assert!(matches!(
        change_handle_step(true, 3, &r),
        Step::Answer(Err(AccountError::HandleUnchanged))
    ));
    let r = HandleChangeReads { actor_is_owner: Some(false), ..all_read() };
    assert!(matches!(
        change_handle_step(true, 3, &r),
        Step::Answer(Err(AccountError::IncorrectRole))
    ));
    let r = HandleChangeReads { recent_changes: Some(3), ..all_read() };
    assert!(matches!(
        change_handle_step(true, 3, &r),
        Step::Answer(Err(AccountError::RenamedTooRecently))
    ));
    let r = HandleChangeReads { bound_to_did: Some(true), ..all_read() };
    assert!(matches!(
        change_handle_step(true, 3, &r),
        Step::Answer(Err(AccountError::HandleTaken))
    ));
    let r = HandleChangeReads { reserved_for_other: Some(true), ..all_read() };
    assert!(matches!(
        change_handle_step(true, 3, &r),
        Step::Answer(Err(AccountError::HandleTaken))
    ));
}

#[test]
fn owner_is_never_granted() {
    let r = GrantReads { actor_can_grant_role: Some(Some(true)), actor_can_grant_current: Some(None) };
    assert!(matches!(
        grant_role_step(true, &r),
        Step::Answer(Err(AccountError::IncorrectTransferOfAccount))
    ));
}

#[test]
fn grant_needs_authority_over_role_and_current_role() {
    let r = GrantReads { actor_can_grant_role: None, actor_can_grant_current: None };
    assert!(matches!(grant_role_step(false, &r), Step::Read(GrantRead::ActorRole)));
    let r = GrantReads { actor_can_grant_role: Some(Some(true)), actor_can_grant_current: None };
    assert!(matches!(grant_role_step(false, &r), Step::Read(GrantRead::TargetRole)));
    let r = GrantReads { actor_can_grant_role: Some(Some(true)), actor_can_grant_current: Some(None) };
    assert!(matches!(grant_role_step(false, &r), Step::Answer(Ok(()))));
    let r = GrantReads {
        actor_can_grant_role: Some(Some(true)),
        actor_can_grant_current: Some(Some(true)),
    };
    assert!(matches!(grant_role_step(false, &r), Step::Answer(Ok(()))));
    let r = GrantReads {
        actor_can_grant_role: Some(Some(true)),
        actor_can_grant_current: Some(Some(false)),
    };
    assert!(matches!(grant_role_step(false, &r), Step::Answer(Err(AccountError::IncorrectRole))));
    let r = GrantReads { actor_can_grant_role: Some(None), actor_can_grant_current: None };
    assert!(matches!(grant_role_step(false, &r), Step::Answer(Err(AccountError::IncorrectRole))));
    let r = GrantReads { actor_can_grant_role: Some(Some(false)), actor_can_grant_current: None };
    assert!(matches!(grant_role_step(false, &r), Step::Answer(Err(AccountError::IncorrectRole))));
}

#[test]
fn revoke_role_needs_member_and_authority() {
    let r = RevokeRoleReads { target_has_role: None, actor_can_grant_target_role: None };
    assert!(matches!(revoke_role_step(&r), Step::Read(RevokeRoleRead::TargetRole)));
    let r = RevokeRoleReads { target_has_role: Some(false), actor_can_grant_target_role: None };
    assert!(matches!(revoke_role_step(&r), Step::Answer(Err(AccountError::UserNotFound))));
    let r = RevokeRoleReads { target_has_role: Some(true), actor_can_grant_target_role: None };
    assert!(matches!(revoke_role_step(&r), Step::Read(RevokeRoleRead::ActorRole)));
    let r = RevokeRoleReads {
        target_has_role: Some(true),
        actor_can_grant_target_role: Some(None),
    };
    assert!(matches!(revoke_role_step(&r), Step::Answer(Err(AccountError::IncorrectRole))));
    let r = RevokeRoleReads {
        target_has_role: Some(true),
        actor_can_grant_target_role: Some(Some(false)),
    };
    assert!(matches!(revoke_role_step(&r), Step::Answer(Err(AccountError::IncorrectRole))));
    let r = RevokeRoleReads {
        target_has_role: Some(true),
        actor_can_grant_target_role: Some(Some(true)),
    };
    assert!(matches!(revoke_role_step(&r), Step::Answer(Ok(()))));
}

#[test]
fn invitation_revocation_checks() {
    let base = RevokeInvitationReads {
        target_is_member: None,
        invitation_pending: None,
        actor_can_grant_invited_role: None,
    };
    assert!(matches!(
        revoke_invitation_step(&base),
        Step::Read(RevokeInvitationRead::TargetRole)
    ));
    let r = RevokeInvitationReads { target_is_member: Some(true), ..base };
    assert!(matches!(revoke_invitation_step(&r), Step::Answer(Err(AccountError::AlreadyMember))));
    let r = RevokeInvitationReads { target_is_member: Some(false), ..base };
    assert!(matches!(
        revoke_invitation_step(&r),
        Step::Read(RevokeInvitationRead::PendingInvitation)
    ));
    let r = RevokeInvitationReads {
        target_is_member: Some(false),
        invitation_pending: Some(false),
        ..base
    };
    assert!(matches!(
        revoke_invitation_step(&r),
        Step::Answer(Err(AccountError::NoPendingInvitation))
    ));
    let r = RevokeInvitationReads {
        target_is_member: Some(false),
        invitation_pending: Some(true),
        ..base
    };
    assert!(matches!(revoke_invitation_step(&r), Step::Read(RevokeInvitationRead::ActorRole)));
    let r = RevokeInvitationReads {
        target_is_member: Some(false),
        invitation_pending: Some(true),
        actor_can_grant_invited_role: Some(None),
    };
    assert!(matches!(revoke_invitation_step(&r), Step::Answer(Err(AccountError::NotAMember))));
    let r = RevokeInvitationReads {
        target_is_member: Some(false),
        invitation_pending: Some(true),
        actor_can_grant_invited_role: Some(Some(true)),
    };
    assert!(matches!(revoke_invitation_step(&r), Step::Answer(Ok(()))));
}

#[test]
fn messages_never_quote_the_cause() {
    let e = AccountError::Infrastructure(anyhow::Error::msg("SELECT secret FROM vault"));
    assert_eq!(e.message(), Some("an infrastructure port failed"));
    assert!(e.has_source());
    assert_eq!(AccountError::HandleTaken.message(), None);
    assert!(!AccountError::HandleTaken.has_source());
    assert_eq!(
        AccountError::IncorrectTransferOfAccount.message(),
        Some("Owner can't be granted; transfer ownership instead")
    );
    assert_eq!(AccountError::UserNotFound.message(), Some("User not found!"));
}

#[test]
fn infrastructure_errors_convert() {
    let e: AccountError = anyhow::Error::msg("db down").into();
    assert!(matches!(e, AccountError::Infrastructure(ref inner) if inner.to_string() == "db down"));
}

#[test]
fn projections_spell_their_fields() {
    assert_eq!(Deleted::from_outcome(DeleteOutcome::Soft).into_outcome(), "soft");
    assert_eq!(Deleted::from_outcome(DeleteOutcome::Hard).into_outcome(), "hard");
    let f = Founded::new("id".into(), "did:plc:a".into(), "a.zurfur.app".into(), "A".into());
    assert_eq!(
        f.into_parts(),
        ("id".to_string(), "did:plc:a".to_string(), "a.zurfur.app".to_string(), "A".to_string())
    );
}

#[test]
fn failures_are_reported_under_their_problem_codes() {
    let infra = AccountError::Infrastructure(anyhow::Error::msg("connection reset"));
    assert_eq!(infra.problem_code(), "internal_error");
    assert_eq!(AccountError::HandleTaken.problem_code(), "handle_taken");
    assert_eq!(AccountError::AccountNotFound.problem_code(), "account_not_found");
    assert_eq!(AccountError::IncorrectRole.problem_code(), "forbidden");
    assert_eq!(AccountError::IncorrectTransferOfAccount.problem_code(), "forbidden");
    assert_eq!(AccountError::RenamedTooRecently.problem_code(), "rate_limited");
    assert_eq!(AccountError::HandleUnchanged.problem_code(), "invalid_request");
    assert_eq!(AccountError::CannotTransferToSelf.problem_code(), "invalid_request");
    assert_eq!(AccountError::NotAMember.problem_code(), "member_not_found");
    assert_eq!(
        AccountError::DidBelongsToAnotherActor.problem_code(),
        "did_belongs_to_another_actor"
    );
}
