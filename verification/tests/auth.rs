use application::auth::{
    access_claims, authorization_redirect_url, check_refresh_expiry, claims_did,
    deserialize_dpop_key_bytes, expires_at, hash_token, login_handle, oauth_request_expiry,
    pds_endpoint, personal_org_slug, refreshed_handle, returning_user_slug_fallback,
    serialize_key_bytes, session_lifetime_secs, verify_subject, complete_login_step, AtprotoSession,
    jwk_metadata_fields, LoginAction, LoginError, LoginProgress, StoredUser,
};

#[test]
fn hash_token_is_deterministic() {
    let a = hash_token("my-refresh-token");
    let b = hash_token("my-refresh-token");
    assert_eq!(a, b);
}

#[test]
fn hash_token_differs_for_different_inputs() {
    let a = hash_token("token-a");
    let b = hash_token("token-b");
    assert_ne!(a, b);
}

#[test]
fn hash_token_is_hex_sha256() {
    let hash = hash_token("hello");
    // SHA-256 produces 64 hex characters
    assert_eq!(hash.len(), 64);
    assert!(hash.chars().all(|c| c.is_ascii_hexdigit()));
}

#[test]
fn hash_token_matches_sha256_test_vector() {
    assert_eq!(
        hash_token("hello"),
        "2cf24dba5fb0a30e26e83b2ac5b9e29e1b161e5c1fa7425e73043362938b9824"
    );
    assert_eq!(
        hash_token(""),
        "e3b0c44298fc1c149afbf4c8996fb92427ae41e4649b934ca495991b7852b855"
    );
}

#[test]
fn session_lifetime_is_clamped() {
    assert_eq!(session_lifetime_secs(0), 1);
    assert_eq!(session_lifetime_secs(3600), 3600);
    assert_eq!(session_lifetime_secs(31_536_000), 31_536_000);
    assert_eq!(session_lifetime_secs(u32::MAX), 31_536_000);
}

#[test]
fn expired_refresh_token_is_refused() {
    assert!(matches!(check_refresh_expiry(99, 100), Err(LoginError::InvalidState)));
    assert!(check_refresh_expiry(100, 100).is_ok());
    assert!(check_refresh_expiry(200, 100).is_ok());
}

#[test]
fn user_without_did_gets_no_token() {
    assert_eq!(claims_did(Some("did:plc:x".to_string())).unwrap(), "did:plc:x");
    match claims_did(None) {
        Err(LoginError::InternalError(m)) => assert_eq!(m, "User has no DID"),
        other => panic!("unexpected {:?}", other),
    }
}

#[test]
fn access_claims_carry_identity_and_expiry() {
    let c = access_claims(
        "user-1".to_string(),
        "did:plc:testuser",
        &Some("test.bsky.social".to_string()),
        1_000,
        900,
    );
    assert_eq!(c.sub, "user-1");
    assert_eq!(c.did, "did:plc:testuser");
    assert_eq!(c.handle.as_deref(), Some("test.bsky.social"));
    assert_eq!(c.exp, 1_900);
    assert_eq!(expires_at(10, 2_592_000), 2_592_010);
    assert_eq!(oauth_request_expiry(1_000), 1_600);
}

#[test]
fn did_login_keeps_no_handle() {
    assert_eq!(login_handle("did:plc:abc"), None);
    assert_eq!(login_handle("alice.bsky.social").as_deref(), Some("alice.bsky.social"));
    assert_eq!(login_handle("did").as_deref(), Some("did"));
}

#[test]
fn first_pds_endpoint_is_used() {
    let endpoints = vec!["https://a.example".to_string(), "https://b.example".to_string()];
    assert_eq!(pds_endpoint(&endpoints).unwrap(), "https://a.example");
    assert!(matches!(pds_endpoint(&vec![]), Err(LoginError::PdsNotFound)));
}

#[test]
fn token_subject_must_match_did() {
    assert_eq!(
        verify_subject(Some("did:plc:a".to_string()), "did:plc:a").unwrap(),
        "did:plc:a"
    );
    assert!(matches!(
        verify_subject(Some("did:plc:b".to_string()), "did:plc:a"),
        Err(LoginError::DidMismatch)
    ));
    assert!(matches!(verify_subject(None, "did:plc:a"), Err(LoginError::DidMismatch)));
}

#[test]
fn redirect_url_percent_encodes_parameters() {
    let url = authorization_redirect_url(
        "https://auth.example/oauth/authorize",
        "https://zurfur.app/client-metadata.json",
        "urn:ietf:params:oauth:request_uri:req-1",
    );
    assert_eq!(
        url,
        "https://auth.example/oauth/authorize?client_id=https%3A%2F%2Fzurfur.app%2Fclient-metadata.json&request_uri=urn%3Aietf%3Aparams%3Aoauth%3Arequest_uri%3Areq-1"
    );
    let url = authorization_redirect_url("e", "a b~é", "x");
    assert_eq!(url, "e?client_id=a%20b~%C3%A9&request_uri=x");
}

#[test]
fn dpop_key_round_trips_through_storage() {
    let bytes = vec![0u8, 1, 2, 250, 255];
    let stored = serialize_key_bytes(&bytes);
    assert_eq!(stored, "AAEC+v8=");
    assert_eq!(deserialize_dpop_key_bytes(&stored).unwrap(), bytes);
    match deserialize_dpop_key_bytes("not base64!") {
        Err(LoginError::InternalError(m)) => assert!(m.starts_with("Invalid stored DPoP key: ")),
        other => panic!("unexpected {:?}", other),
    }
}

#[test]
fn changed_handle_is_refreshed() {
    let stored = Some("old.bsky.social".to_string());
    assert_eq!(
        refreshed_handle(&stored, &Some("new.bsky.social".to_string())).as_deref(),
        Some("new.bsky.social")
    );
    assert_eq!(refreshed_handle(&stored, &Some("old.bsky.social".to_string())), None);
    assert_eq!(refreshed_handle(&stored, &None), None);
    assert_eq!(
        refreshed_handle(&None, &Some("new.bsky.social".to_string())).as_deref(),
        Some("new.bsky.social")
    );
}

#[test]
fn personal_org_slug_prefers_the_handle() {
    assert_eq!(
        personal_org_slug(&Some("coolartist.bsky.social".to_string()), "did:plc:xyz"),
        "coolartist"
    );
    assert_eq!(personal_org_slug(&None, "did:plc:xyz"), "did-plc-xyz");
    assert_eq!(returning_user_slug_fallback(&None), "user");
    assert_eq!(
        returning_user_slug_fallback(&Some("did:plc:q".to_string())),
        "did:plc:q"
    );
    assert_eq!(personal_org_slug(&None, &returning_user_slug_fallback(&None)), "user");
}

fn session(handle: Option<&str>, expires_in_secs: u32) -> AtprotoSession {
    AtprotoSession {
        did: "did:plc:abc".to_string(),
        handle: handle.map(String::from),
        email: None,
        access_token: "at".to_string(),
        refresh_token: None,
        expires_in_secs,
    }
}

fn fresh() -> LoginProgress {
    LoginProgress {
        user: None,
        handle_updated: false,
        personal_org_found: None,
        user_created: false,
        personal_org_tried: false,
    }
}

#[test]
fn returning_user_handle_follows_the_session() {
    let s = session(Some("renamed.bsky.social"), 3600);
    let mut p = fresh();
    assert!(matches!(complete_login_step(&s, &p), LoginAction::FindUser));
    p.user = Some(Some(StoredUser {
        handle: Some("old.bsky.social".to_string()),
        did: Some("did:plc:abc".to_string()),
    }));
    match complete_login_step(&s, &p) {
        LoginAction::UpdateHandle(h) => assert_eq!(h, "renamed.bsky.social"),
        other => panic!("expected a handle update, got {:?}", other),
    }
    p.handle_updated = true;
    assert!(matches!(complete_login_step(&s, &p), LoginAction::FindPersonalOrg));
    p.personal_org_found = Some(false);
    match complete_login_step(&s, &p) {
        LoginAction::CreatePersonalOrg(slug) => assert_eq!(slug, "renamed"),
        other => panic!("expected a personal organization, got {:?}", other),
    }
    p.personal_org_tried = true;
    assert!(matches!(
        complete_login_step(&s, &p),
        LoginAction::Finish { session_secs: 3600, is_new_user: false }
    ));
    // A handle whose slug is reserved falls back to a random `user-` slug.
    let reserved = session(Some("new.bsky.social"), 3600);
    p.personal_org_tried = false;
    match complete_login_step(&reserved, &p) {
        LoginAction::CreatePersonalOrg(slug) => assert!(slug.starts_with("user-")),
        other => panic!("expected a personal organization, got {:?}", other),
    }
}

#[test]
fn unchanged_handle_and_existing_org_finish_at_once() {
    let s = session(Some("same.bsky.social"), 0);
    let mut p = fresh();
    p.user = Some(Some(StoredUser { handle: Some("same.bsky.social".to_string()), did: None }));
    assert!(matches!(complete_login_step(&s, &p), LoginAction::FindPersonalOrg));
    p.personal_org_found = Some(true);
    assert!(matches!(
        complete_login_step(&s, &p),
        LoginAction::Finish { session_secs: 1, is_new_user: false }
    ));
}

#[test]
fn returning_user_without_handle_gets_slug_from_did_or_user() {
    let s = session(None, 4_000_000_000);
    let mut p = fresh();
    p.user = Some(Some(StoredUser { handle: None, did: Some("did:plc:q".to_string()) }));
    p.personal_org_found = Some(false);
    match complete_login_step(&s, &p) {
        LoginAction::CreatePersonalOrg(slug) => assert_eq!(slug, "did-plc-q"),
        other => panic!("expected a personal organization, got {:?}", other),
    }
    p.user = Some(Some(StoredUser { handle: None, did: None }));
    match complete_login_step(&s, &p) {
        LoginAction::CreatePersonalOrg(slug) => assert_eq!(slug, "user"),
        other => panic!("expected a personal organization, got {:?}", other),
    }
    p.personal_org_tried = true;
    assert!(matches!(
        complete_login_step(&s, &p),
        LoginAction::Finish { session_secs: 31_536_000, is_new_user: false }
    ));
}

#[test]
fn new_user_is_created_with_a_personal_org() {
    let s = session(Some("coolartist.bsky.social"), 7200);
    let mut p = fresh();
    p.user = Some(None);
    assert!(matches!(complete_login_step(&s, &p), LoginAction::CreateUser));
    p.user_created = true;
    match complete_login_step(&s, &p) {
        LoginAction::CreatePersonalOrg(slug) => assert_eq!(slug, "coolartist"),
        other => panic!("expected a personal organization, got {:?}", other),
    }
    p.personal_org_tried = true;
    assert!(matches!(
        complete_login_step(&s, &p),
        LoginAction::Finish { session_secs: 7200, is_new_user: true }
    ));
    let no_handle = session(None, 7200);
    match complete_login_step(&no_handle, &LoginProgress { personal_org_tried: false, ..p }) {
        LoginAction::CreatePersonalOrg(slug) => assert_eq!(slug, "did-plc-abc"),
        other => panic!("expected a personal organization, got {:?}", other),
    }
}

#[test]
fn key_storage_is_standard_padded_base64() {
    assert_eq!(serialize_key_bytes(&[]), "");
    assert_eq!(serialize_key_bytes(b"Man"), "TWFu");
    assert_eq!(serialize_key_bytes(b"Ma"), "TWE=");
    assert_eq!(serialize_key_bytes(b"M"), "TQ==");
    assert_eq!(serialize_key_bytes(&[0xfb, 0xff]), "+/8=");
    let key: Vec<u8> = (0u8..=255).collect();
    assert_eq!(deserialize_dpop_key_bytes(&serialize_key_bytes(&key)).unwrap(), key);
}

#[test]
fn jwk_carries_use_kid_and_alg() {
    let fields = jwk_metadata_fields("did:key:zExample".to_string());
    assert_eq!(
        fields,
        vec![
            ("use".to_string(), "sig".to_string()),
            ("kid".to_string(), "did:key:zExample".to_string()),
            ("alg".to_string(), "ES256".to_string()),
        ]
    );
}
