use application::commission::archive::decide_archive;
use application::commission::changelog::{
    decide_read_changelog, decide_read_changelog_by_user, number_entries,
};
use application::commission::deadline::status::{
    decide_clear_deadline_status, decide_set_deadline_status,
};
use application::commission::deadline::{
    decide_clear_deadline, decide_set_deadline, DeadlineFacts, DeadlineStatus,
};
use application::commission::delete::{decide_delete, Outcome};
use application::commission::direction::decide_set_direction;
use application::commission::files::decide_upload;
use application::commission::invitations::{
    decide_issue_invitation, find_vacant_seat, issue_invitation_step, issued_outcome,
    revoke_seat_invitation_step, seat_exists, IssueOutcome, IssueReads, IssueStep, SeatFacts,
    SeatRevocation, SeatRevocationRead, SeatRevocationReads,
};
use application::commission::maturity::decide_set_maturity;
use application::commission::notes::note_text;
use application::commission::view::decide_view_change;
use application::step::Step;
use application::commission::{
    found_commission, found_user, ChangelogEntryKind, CommissionError, Commissions, Instant,
};

fn at(secs: i64) -> Instant {
    Instant { secs, nanos: 0 }
}

#[test]
fn namespaces_share_their_ports() {
    let ports = 7u32;
    let c = Commissions::new(&ports);
    let d = c.deadline();
    let s = d.status();
    assert_eq!(*c.ports(), 7);
    assert_eq!(*d.ports(), 7);
    assert_eq!(*s.ports(), 7);
}

#[test]
fn archive_checks() {
    assert!(matches!(decide_archive(None), Err(CommissionError::CommissionNotFound)));
    assert!(matches!(
        decide_archive(Some((true, true))),
        Err(CommissionError::CommissionAlreadyAtState)
    ));
    assert!(matches!(
        decide_archive(Some((false, false))),
        Err(CommissionError::InsufficientPermissions)
    ));
    assert_eq!(decide_archive(Some((false, true))).unwrap(), ChangelogEntryKind::Archived);
}

#[test]
fn delete_keeps_commissions_with_facts() {
    assert!(matches!(decide_delete(None), Err(CommissionError::CommissionNotFound)));
    assert_eq!(decide_delete(Some(true)).unwrap(), Outcome::HasFacts);
    assert_eq!(decide_delete(Some(false)).unwrap(), Outcome::Deleted);
}

#[test]
fn later_deadline_is_an_extension() {
    let c = DeadlineFacts { deadline: Some(at(100)), status: None };
    let e = decide_set_deadline(Some(c), true, at(200), at(50)).unwrap();
    assert_eq!(e.kind, ChangelogEntryKind::DeadlineExtended);
    assert_eq!(e.from, Some(at(100)));
    assert_eq!(e.to, Some(at(200)));
    let e = decide_set_deadline(Some(c), true, at(90), at(50)).unwrap();
    assert_eq!(e.kind, ChangelogEntryKind::DeadlineSet);
    let e = decide_set_deadline(Some(c), true, Instant { secs: 100, nanos: 1 }, at(50)).unwrap();
    assert_eq!(e.kind, ChangelogEntryKind::DeadlineExtended);
    let none = DeadlineFacts { deadline: None, status: None };
    let e = decide_set_deadline(Some(none), true, at(200), at(50)).unwrap();
    assert_eq!(e.kind, ChangelogEntryKind::DeadlineSet);
    assert_eq!(e.from, None);
}

#[test]
fn set_deadline_refusals() {
    let c = DeadlineFacts { deadline: Some(at(100)), status: None };
    assert!(matches!(
        decide_set_deadline(None, true, at(200), at(50)),
        Err(CommissionError::UserNotFound)
    ));
    assert!(matches!(
        decide_set_deadline(Some(c), false, at(200), at(50)),
        Err(CommissionError::NotAMember)
    ));
    assert!(matches!(
        decide_set_deadline(Some(c), true, at(200), at(100)),
        Err(CommissionError::CommissionAlreadyAtState)
    ));
}

#[test]
fn clear_deadline_after_set() {
    let c = DeadlineFacts { deadline: None, status: None };
    assert!(matches!(
        decide_clear_deadline(Some(c), true),
        Err(CommissionError::CommissionAlreadyAtState)
    ));
    let e = decide_set_deadline(Some(c), true, at(300), at(10)).unwrap();
    let after = DeadlineFacts { deadline: e.to, status: None };
    let cleared = decide_clear_deadline(Some(after), true).unwrap();
    assert_eq!(cleared.kind, ChangelogEntryKind::DeadlineSet);
    assert_eq!(cleared.from, Some(at(300)));
    assert_eq!(cleared.to, None);
    assert!(matches!(decide_clear_deadline(None, true), Err(CommissionError::CommissionNotFound)));
    assert!(matches!(decide_clear_deadline(Some(after), false), Err(CommissionError::NotAMember)));
}

#[test]
fn only_delays_are_requested() {
    let c = DeadlineFacts { deadline: Some(at(100)), status: None };
    assert!(matches!(
        decide_set_deadline_status(DeadlineStatus::Late, Some(c)),
        Err(CommissionError::InvalidStateRequested)
    ));
    let e = decide_set_deadline_status(DeadlineStatus::Delayed, Some(c)).unwrap();
    assert_eq!(e.kind, ChangelogEntryKind::Delayed);
    assert_eq!(e.from, None);
    assert_eq!(e.to, Some(DeadlineStatus::Delayed));
    assert_eq!(e.deadline, Some(at(100)));
    let late = DeadlineFacts { deadline: Some(at(100)), status: Some(DeadlineStatus::Late) };
    assert!(matches!(
        decide_set_deadline_status(DeadlineStatus::Delayed, Some(late)),
        Err(CommissionError::CommissionAlreadyAtState)
    ));
    let no_deadline = DeadlineFacts { deadline: None, status: None };
    assert!(matches!(
        decide_set_deadline_status(DeadlineStatus::Delayed, Some(no_deadline)),
        Err(CommissionError::InvalidStateRequested)
    ));
    assert!(matches!(
        decide_set_deadline_status(DeadlineStatus::Delayed, None),
        Err(CommissionError::CommissionNotFound)
    ));
}

#[test]
fn delay_can_be_cleared() {
    let delayed = DeadlineFacts { deadline: Some(at(5)), status: Some(DeadlineStatus::Delayed) };
    let e = decide_clear_deadline_status(Some(delayed), true).unwrap();
    assert_eq!(e.kind, ChangelogEntryKind::DeadlineSet);
    assert_eq!(e.from, Some(DeadlineStatus::Delayed));
    assert_eq!(e.to, None);
    let none = DeadlineFacts { deadline: Some(at(5)), status: None };
    assert!(matches!(
        decide_clear_deadline_status(Some(none), true),
        Err(CommissionError::CommissionAlreadyAtState)
    ));
    assert!(matches!(
        decide_clear_deadline_status(Some(delayed), false),
        Err(CommissionError::NotAMember)
    ));
}

#[test]
fn direction_change_checks() {
    assert!(matches!(decide_set_direction(false, false), Err(CommissionError::CommissionNotFound)));
    assert!(matches!(decide_set_direction(true, true), Err(CommissionError::NotAMember)));
    assert_eq!(decide_set_direction(true, false).unwrap(), ChangelogEntryKind::StatusChanged);
}

#[test]
fn invitation_goes_to_first_vacant_requested_seat() {
    let seats = vec![
        SeatFacts { is_requested: false, vacant: true },
        SeatFacts { is_requested: true, vacant: false },
        SeatFacts { is_requested: true, vacant: true },
        SeatFacts { is_requested: true, vacant: true },
    ];
    assert_eq!(find_vacant_seat(&seats).unwrap(), 2);
    let taken = vec![SeatFacts { is_requested: true, vacant: false }];
    assert!(matches!(find_vacant_seat(&taken), Err(CommissionError::SeatNotFound)));
    assert!(seat_exists(&taken));
    assert!(!seat_exists(&vec![SeatFacts { is_requested: false, vacant: true }]));
}

#[test]
fn issuing_checks_and_outcomes() {
    assert!(matches!(decide_issue_invitation(None), Err(CommissionError::CommissionNotFound)));
    assert!(matches!(
        decide_issue_invitation(Some(false)),
        Err(CommissionError::InsufficientPermissions)
    ));
    assert!(decide_issue_invitation(Some(true)).is_ok());
    assert_eq!(issued_outcome(Some(true)), IssueOutcome::Created);
    assert_eq!(issued_outcome(None), IssueOutcome::Created);
    assert_eq!(issued_outcome(Some(false)), IssueOutcome::PreExisting);
}

#[test]
fn issuing_walks_commission_seats_and_pending_invitation() {
    let seats = vec![
        SeatFacts { is_requested: true, vacant: false },
        SeatFacts { is_requested: true, vacant: true },
    ];
    let mut reads =
        IssueReads { commission: None, seats: None, pending_before: None, stored_after: None };
    assert!(matches!(issue_invitation_step(&reads), IssueStep::ReadCommission));
    reads.commission = Some(None);
    assert!(matches!(
        issue_invitation_step(&reads),
        IssueStep::Answer(Err(CommissionError::CommissionNotFound))
    ));
    reads.commission = Some(Some(false));
    assert!(matches!(
        issue_invitation_step(&reads),
        IssueStep::Answer(Err(CommissionError::InsufficientPermissions))
    ));
    reads.commission = Some(Some(true));
    assert!(matches!(issue_invitation_step(&reads), IssueStep::ReadSeats));
    reads.seats = Some(vec![SeatFacts { is_requested: true, vacant: false }]);
    assert!(matches!(
        issue_invitation_step(&reads),
        IssueStep::Answer(Err(CommissionError::SeatNotFound))
    ));
    reads.seats = Some(seats);
    assert!(matches!(issue_invitation_step(&reads), IssueStep::ReadPending(1)));
    reads.pending_before = Some(true);
    assert!(matches!(
        issue_invitation_step(&reads),
        IssueStep::Answer(Ok((1, IssueOutcome::PreExisting)))
    ));
    reads.pending_before = Some(false);
    assert!(matches!(issue_invitation_step(&reads), IssueStep::Create(1)));
    reads.stored_after = Some(Some(true));
    assert!(matches!(
        issue_invitation_step(&reads),
        IssueStep::Answer(Ok((1, IssueOutcome::Created)))
    ));
    reads.stored_after = Some(Some(false));
    assert!(matches!(
        issue_invitation_step(&reads),
        IssueStep::Answer(Ok((1, IssueOutcome::PreExisting)))
    ));
    reads.stored_after = Some(None);
    assert!(matches!(
        issue_invitation_step(&reads),
        IssueStep::Answer(Ok((1, IssueOutcome::Created)))
    ));
}

#[test]
fn seat_invitation_revocation() {
    let step = |owned_by_actor, seat_found, pending| {
        revoke_seat_invitation_step(&SeatRevocationReads { owned_by_actor, seat_found, pending })
    };
    assert!(matches!(step(None, None, None), Step::Read(SeatRevocationRead::Commission)));
    assert!(matches!(
        step(Some(false), None, None),
        Step::Answer(Err(CommissionError::InsufficientPermissions))
    ));
    assert!(matches!(step(Some(true), None, None), Step::Read(SeatRevocationRead::Seats)));
    assert!(matches!(
        step(Some(true), Some(false), None),
        Step::Answer(Err(CommissionError::SeatNotFound))
    ));
    assert!(matches!(
        step(Some(true), Some(true), None),
        Step::Read(SeatRevocationRead::PendingInvitation)
    ));
    assert!(matches!(
        step(Some(true), Some(true), Some(None)),
        Step::Answer(Ok(SeatRevocation::NothingPending))
    ));
    assert!(matches!(
        step(Some(true), Some(true), Some(Some(true))),
        Step::Answer(Ok(SeatRevocation::Revoke))
    ));
    assert!(matches!(
        step(Some(true), Some(true), Some(Some(false))),
        Step::Answer(Err(CommissionError::InvalidStateRequested))
    ));
}

#[test]
fn maturity_view_and_reads() {
    assert!(matches!(decide_set_maturity(None), Err(CommissionError::CommissionNotFound)));
    assert!(matches!(
        decide_set_maturity(Some(false)),
        Err(CommissionError::InsufficientPermissions)
    ));
    assert!(decide_set_maturity(Some(true)).is_ok());
    assert_eq!(
        decide_view_change(true, ChangelogEntryKind::ViewGrantIssued).unwrap(),
        ChangelogEntryKind::ViewGrantIssued
    );
    assert!(matches!(
        decide_view_change(false, ChangelogEntryKind::ViewGrantRevoked),
        Err(CommissionError::CommissionNotFound)
    ));
    assert!(decide_read_changelog(true).is_ok());
    assert!(matches!(
        decide_read_changelog(false),
        Err(CommissionError::InsufficientPermissions)
    ));
    assert!(matches!(
        decide_read_changelog_by_user(false, true, true),
        Err(CommissionError::UserNotFound)
    ));
    assert!(matches!(
        decide_read_changelog_by_user(true, false, true),
        Err(CommissionError::NotAMember)
    ));
    assert!(matches!(
        decide_read_changelog_by_user(true, true, false),
        Err(CommissionError::InsufficientPermissions)
    ));
    assert!(decide_read_changelog_by_user(true, true, true).is_ok());
}

#[test]
fn upload_and_lookups() {
    assert!(matches!(decide_upload(false, true, true), Err(CommissionError::UserNotFound)));
    assert!(matches!(decide_upload(true, false, true), Err(CommissionError::CommissionNotFound)));
    assert!(matches!(decide_upload(true, true, false), Err(CommissionError::NotAMember)));
    assert!(decide_upload(true, true, true).is_ok());
    assert!(matches!(found_user::<u8>(None), Err(CommissionError::UserNotFound)));
    assert!(matches!(found_commission::<u8>(None), Err(CommissionError::CommissionNotFound)));
    assert_eq!(found_user(Some(1)).unwrap(), 1);
}

#[test]
fn notes_are_trimmed_and_non_empty() {
    assert_eq!(note_text(true, "  looks great \n").unwrap(), "looks great");
    assert!(matches!(note_text(true, " \t "), Err(CommissionError::IncorrectContent)));
    assert!(matches!(note_text(false, "hi"), Err(CommissionError::NotAMember)));
}

#[test]
fn changelog_entries_are_numbered_from_zero() {
    let numbered = number_entries(vec!["created", "note", "archived"]);
    let seqs: Vec<i64> = numbered.iter().map(|e| e.seq).collect();
    let entries: Vec<&str> = numbered.iter().map(|e| e.entry).collect();
    assert_eq!(seqs, vec![0, 1, 2]);
    assert_eq!(entries, vec!["created", "note", "archived"]);
    assert!(number_entries::<u8>(vec![]).is_empty());
}
