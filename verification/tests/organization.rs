use application::organization::{
    ActorMembership, DeleteOrgReads, MemberUpdate, OrgRead, OrgRepoError, OrgServiceError,
    OrganizationService, PermissionSet, RemoveMemberReads,
};
use application::step::Step;

fn invalid_message(r: Result<(), OrgServiceError>) -> String {
    match r {
        Err(OrgServiceError::InvalidSlug(m)) => m,
        other => panic!("expected an invalid slug, got {:?}", other),
    }
}

#[test]
fn valid_slugs() {
    assert!(OrganizationService::validate_slug("my-org").is_ok());
    assert!(OrganizationService::validate_slug("ab").is_ok());
    assert!(OrganizationService::validate_slug("test-org-123").is_ok());
}

#[test]
fn slug_too_short() {
    assert!(OrganizationService::validate_slug("a").is_err());
}

#[test]
fn slug_invalid_chars() {
    assert!(OrganizationService::validate_slug("My-Org").is_err());
    assert!(OrganizationService::validate_slug("my_org").is_err());
    assert!(OrganizationService::validate_slug("my org").is_err());
}

#[test]
fn slug_starts_or_ends_with_hyphen() {
    assert!(OrganizationService::validate_slug("-my-org").is_err());
    assert!(OrganizationService::validate_slug("my-org-").is_err());
}

#[test]
fn slug_reserved_words() {
    assert!(OrganizationService::validate_slug("admin").is_err());
    assert!(OrganizationService::validate_slug("me").is_err());
    assert!(OrganizationService::validate_slug("settings").is_err());
}

#[test]
fn slug_from_handle_strips_bsky_suffix() {
    assert_eq!(
        OrganizationService::slug_from_handle("coolartist.bsky.social"),
        "coolartist"
    );
}

#[test]
fn slug_from_handle_sanitizes_special_chars() {
    assert_eq!(
        OrganizationService::slug_from_handle("cool.artist.com"),
        "cool-artist-com"
    );
}

#[test]
fn slug_messages_name_the_first_broken_rule() {
    assert_eq!(
        invalid_message(OrganizationService::validate_slug("a")),
        "Slug must be between 2 and 64 characters"
    );
    assert_eq!(
        invalid_message(OrganizationService::validate_slug(&"a".repeat(65))),
        "Slug must be between 2 and 64 characters"
    );
    assert!(OrganizationService::validate_slug(&"a".repeat(64)).is_ok());
    assert_eq!(
        invalid_message(OrganizationService::validate_slug("My-Org")),
        "Slug must contain only lowercase letters, numbers, and hyphens"
    );
    assert_eq!(
        invalid_message(OrganizationService::validate_slug("-org")),
        "Slug cannot start or end with a hyphen"
    );
    assert_eq!(
        invalid_message(OrganizationService::validate_slug("privacy")),
        "'privacy' is a reserved name"
    );
}

#[test]
fn slug_length_counts_bytes() {
    // One two-byte character: two bytes long, but not a slug character.
    assert_eq!(
        invalid_message(OrganizationService::validate_slug("é")),
        "Slug must contain only lowercase letters, numbers, and hyphens"
    );
    // 33 two-byte characters are 66 bytes: too long before anything else.
    assert_eq!(
        invalid_message(OrganizationService::validate_slug(&"é".repeat(33))),
        "Slug must be between 2 and 64 characters"
    );
}

#[test]
fn slug_from_handle_lowercases_and_trims() {
    assert_eq!(OrganizationService::slug_from_handle("Cool_Artist"), "cool-artist");
    assert_eq!(OrganizationService::slug_from_handle("--ab--"), "ab");
    assert_eq!(OrganizationService::slug_from_handle("x.example.com."), "x-example-com");
    // The suffix is only stripped as written, before lowercasing.
    assert_eq!(
        OrganizationService::slug_from_handle("Artist.BSKY.SOCIAL"),
        "artist-bsky-social"
    );
}

#[test]
fn slug_from_short_handle_is_random_user_slug() {
    for handle in ["a", "", "..", "a.bsky.social"] {
        let slug = OrganizationService::slug_from_handle(handle);
        assert_eq!(slug.len(), 13);
        assert!(slug.starts_with("user-"));
        assert!(slug[5..].chars().all(|c| c.is_ascii_digit() || ('a'..='f').contains(&c)));
        assert!(OrganizationService::validate_slug(&slug).is_ok());
    }
}

#[test]
fn slug_from_long_handle_is_cut_to_64() {
    let handle = "a".repeat(70);
    assert_eq!(OrganizationService::slug_from_handle(&handle), "a".repeat(64));
    let handle = format!("{}--{}", "b".repeat(62), "c".repeat(10));
    assert_eq!(OrganizationService::slug_from_handle(&handle), "b".repeat(62));
    // A cut that leaves one character before a run of hyphens falls back.
    let handle = format!("a{}b", "-".repeat(70));
    assert_is_fallback(&OrganizationService::slug_from_handle(&handle));
}

fn assert_is_fallback(slug: &str) {
    assert_eq!(slug.len(), 13);
    assert!(slug.starts_with("user-"));
    assert!(slug[5..].chars().all(|c| c.is_ascii_digit() || ('a'..='f').contains(&c)));
    assert!(OrganizationService::validate_slug(slug).is_ok());
}

#[test]
fn reserved_handle_slug_falls_back() {
    for handle in ["admin.bsky.social", "me", "Settings", "privacy.bsky.social"] {
        assert_is_fallback(&OrganizationService::slug_from_handle(handle));
    }
    // Not reserved: kept.
    assert_eq!(OrganizationService::slug_from_handle("admins.bsky.social"), "admins");
}

#[test]
fn fallback_slug_takes_eight_uuid_characters() {
    assert_eq!(
        OrganizationService::fallback_slug("0f1e2d3c-4b5a-4697-8877-665544332211"),
        "user-0f1e2d3c"
    );
}

#[test]
fn every_handle_slug_validates() {
    for handle in ["coolartist.bsky.social", "Cool_Artist", "--", "api", "x.y", "ÉCOLE.fr"] {
        let slug = OrganizationService::slug_from_handle(handle);
        assert!(OrganizationService::validate_slug(&slug).is_ok(), "{handle} gave {slug}");
    }
}

#[test]
fn only_owner_passes_owner_check() {
    let owner = ActorMembership { is_owner: true, has_permission: true };
    let member = ActorMembership { is_owner: false, has_permission: true };
    assert!(OrganizationService::require_owner(Some(owner)).is_ok());
    assert!(matches!(
        OrganizationService::require_owner(Some(member)),
        Err(OrgServiceError::Forbidden)
    ));
    assert!(matches!(
        OrganizationService::require_owner(None),
        Err(OrgServiceError::Forbidden)
    ));
}

#[test]
fn permission_check_needs_the_permission() {
    let without = ActorMembership { is_owner: false, has_permission: false };
    assert!(matches!(
        OrganizationService::require_permission(Some(without)),
        Err(OrgServiceError::Forbidden)
    ));
    let with = ActorMembership { is_owner: false, has_permission: true };
    assert!(OrganizationService::require_permission(Some(with)).is_ok());
}

#[test]
fn personal_org_cannot_be_deleted() {
    let owner = ActorMembership { is_owner: true, has_permission: true };
    let member = ActorMembership { is_owner: false, has_permission: true };
    let step = |org, actor| OrganizationService::delete_org_step(&DeleteOrgReads { org, actor });
    assert!(matches!(step(None, None), Step::Read(OrgRead::Organization)));
    assert!(matches!(step(Some(None), None), Step::Answer(Err(OrgServiceError::NotFound))));
    assert!(matches!(
        step(Some(Some(true)), Some(Some(owner))),
        Step::Answer(Err(OrgServiceError::CannotDeletePersonal))
    ));
    assert!(matches!(step(Some(Some(false)), None), Step::Read(OrgRead::ActorMembership)));
    assert!(matches!(step(Some(Some(false)), Some(Some(owner))), Step::Answer(Ok(()))));
    assert!(matches!(
        step(Some(Some(false)), Some(Some(member))),
        Step::Answer(Err(OrgServiceError::Forbidden))
    ));
    assert!(matches!(
        step(Some(Some(false)), Some(None)),
        Step::Answer(Err(OrgServiceError::Forbidden))
    ));
}

#[test]
fn owner_cannot_be_removed() {
    let manager = ActorMembership { is_owner: true, has_permission: true };
    let plain = ActorMembership { is_owner: false, has_permission: false };
    let step = |actor, target_is_owner| {
        OrganizationService::remove_member_step(&RemoveMemberReads { actor, target_is_owner })
    };
    assert!(matches!(step(None, None), Step::Read(OrgRead::ActorMembership)));
    assert!(matches!(step(Some(Some(manager)), None), Step::Read(OrgRead::TargetMembership)));
    assert!(matches!(
        step(Some(Some(manager)), Some(Some(true))),
        Step::Answer(Err(OrgServiceError::CannotRemoveOwner))
    ));
    assert!(matches!(step(Some(Some(manager)), Some(Some(false))), Step::Answer(Ok(()))));
    assert!(matches!(
        step(Some(Some(manager)), Some(None)),
        Step::Answer(Err(OrgServiceError::NotFound))
    ));
    assert!(matches!(
        step(Some(Some(plain)), Some(Some(false))),
        Step::Answer(Err(OrgServiceError::Forbidden))
    ));
    assert!(matches!(step(Some(None), None), Step::Answer(Err(OrgServiceError::Forbidden))));
}

#[test]
fn org_lookups_and_requests() {
    assert!(matches!(
        OrganizationService::require_org::<u8>(None),
        Err(OrgServiceError::NotFound)
    ));
    let p = OrganizationService::personal_org("testuser");
    assert_eq!(p.slug, "testuser");
    assert!(p.display_name.is_none());
    assert!(p.is_personal);
    let c = OrganizationService::custom_org("my-studio", "My Studio").unwrap();
    assert_eq!(c.slug, "my-studio");
    assert_eq!(c.display_name.as_deref(), Some("My Studio"));
    assert!(!c.is_personal);
    assert!(matches!(
        OrganizationService::custom_org("admin", "Admin"),
        Err(OrgServiceError::InvalidSlug(_))
    ));
}

#[test]
fn member_update_checks_owner_only_for_permissions() {
    let manager = ActorMembership { is_owner: false, has_permission: true };
    assert_eq!(
        OrganizationService::plan_member_update(Some(manager), true).unwrap(),
        MemberUpdate::RoleTitleThenPermissions
    );
    assert_eq!(
        OrganizationService::plan_member_update(Some(manager), false).unwrap(),
        MemberUpdate::RoleAndTitle
    );
    assert!(OrganizationService::plan_member_update(None, false).is_err());
}

#[test]
fn creator_becomes_owner_with_all_permissions() {
    let m = OrganizationService::owner_membership();
    assert_eq!(m.role, "owner");
    assert!(m.title.is_none());
    assert!(m.is_owner);
    assert_eq!(m.permissions, PermissionSet::All);
    let added = OrganizationService::added_membership("member", Some("Artist"));
    assert_eq!(added.role, "member");
    assert_eq!(added.title.as_deref(), Some("Artist"));
    assert!(!added.is_owner);
    assert_eq!(added.permissions, PermissionSet::Default);
}

#[test]
fn taken_slug_is_reported_with_the_slug() {
    let e = OrganizationService::create_error(OrgRepoError::SlugTaken {
        slug: "my-org".to_string(),
        text: "taken".to_string(),
    });
    assert!(matches!(e, OrgServiceError::SlugTaken(s) if s == "my-org"));
    let e = OrganizationService::create_error(OrgRepoError::Other { text: "db down".to_string() });
    assert!(matches!(e, OrgServiceError::Internal(s) if s == "db down"));
}
