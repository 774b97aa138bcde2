//! Organization rules: slug validation, personal-org slugs derived from
//! handles, and the permission gates of organization management.
use vstd::prelude::*;
use vstd::string::*;
use vstd::utf8::*;
use crate::step::Step;
use crate::text::{
    has_suffix, is_lower_hex, is_slug_char, lowercase, push_char, slug_char, str_eq,
    all_slug_chars, ends_with, to_lowercase, trim_end_hyphens, trim_hyphen_ends, trim_hyphens,
    trim_start_hyphens,
};

verus! {

broadcast use vstd::string::group_string_axioms;

/// Why an organization operation was refused.
#[derive(Debug)]
pub enum OrgServiceError {
    NotFound,
    SlugTaken(String),
    InvalidSlug(String),
    Forbidden,
    CannotDeletePersonal,
    CannotRemoveOwner,
    InvalidStatus(String),
    Internal(String),
}

/// The rules behind the organization service. The service itself, which
/// holds the repositories, drives these rules from the application shell.
pub struct OrganizationService;

/// Number of bytes of the UTF-8 encoding of `s`.
pub open spec fn byte_len(s: Seq<char>) -> nat {
    encode_utf8(s).len()
}

/// The names no organization may take.
pub open spec fn is_reserved_slug(s: Seq<char>) -> bool {
    ||| s == "me"@
    ||| s == "new"@
    ||| s == "admin"@
    ||| s == "settings"@
    ||| s == "api"@
    ||| s == "auth"@
    ||| s == "organizations"@
    ||| s == "users"@
    ||| s == "search"@
    ||| s == "explore"@
    ||| s == "notifications"@
    ||| s == "help"@
    ||| s == "about"@
    ||| s == "terms"@
    ||| s == "privacy"@
}

/// The message of the first slug rule that `s` breaks, if any: length of
/// 2 to 64 bytes, only slug characters, no hyphen at either end, not reserved.
pub open spec fn slug_problem(s: Seq<char>) -> Option<Seq<char>> {
    if byte_len(s) < 2 || byte_len(s) > 64 {
        Some("Slug must be between 2 and 64 characters"@)
    } else if !(forall|i: int| 0 <= i < s.len() ==> is_slug_char(#[trigger] s[i])) {
        Some("Slug must contain only lowercase letters, numbers, and hyphens"@)
    } else if s[0] == '-' || s.last() == '-' {
        Some("Slug cannot start or end with a hyphen"@)
    } else if is_reserved_slug(s) {
        Some("'"@ + s + "' is a reserved name"@)
    } else {
        None
    }
}

/// The handle with a trailing `.bsky.social` removed.
pub open spec fn bsky_stripped(h: Seq<char>) -> Seq<char> {
    if has_suffix(h, ".bsky.social"@) {
        h.subrange(0, h.len() - ".bsky.social"@.len())
    } else {
        h
    }
}

/// Every character that is not a slug character replaced by a hyphen.
pub open spec fn sanitized(s: Seq<char>) -> Seq<char> {
    s.map_values(|c: char| if is_slug_char(c) { c } else { '-' })
}

/// The slug a handle yields before any length adjustment.
pub open spec fn handle_slug_base(h: Seq<char>) -> Seq<char> {
    trim_hyphens(sanitized(lowercase(bsky_stripped(h))))
}

/// `user-` followed by eight lowercase hexadecimal digits.
pub open spec fn is_fallback_slug(r: Seq<char>) -> bool {
    &&& r.len() == 13
    &&& r.subrange(0, 5) == seq!['u', 's', 'e', 'r', '-']
    &&& forall|i: int| 5 <= i < 13 ==> is_lower_hex(#[trigger] r[i])
}

/// The slug a handle yields before validation: the base slug when it has 2
/// to 64 characters, its first 64 characters less trailing hyphens when
/// longer, and none when shorter.
pub open spec fn handle_slug_candidate(h: Seq<char>) -> Option<Seq<char>> {
    let base = handle_slug_base(h);
    if base.len() < 2 {
        None
    } else if base.len() > 64 {
        Some(trim_end_hyphens(base.subrange(0, 64)))
    } else {
        Some(base)
    }
}

/// `r` is a slug that `slug_from_handle` may return for handle `h`: the
/// candidate slug when there is one and it passes slug validation, else a
/// random `user-` slug.
pub open spec fn slug_from_handle_result(h: Seq<char>, r: Seq<char>) -> bool {
    match handle_slug_candidate(h) {
        Some(c) => if slug_problem(c) is None {
            r == c
        } else {
            is_fallback_slug(r)
        },
        None => is_fallback_slug(r),
    }
}

/// Calls `uuid::Uuid::new_v4` and formats the result with `to_string`,
/// which writes the hyphenated lowercase form: 36 characters, hyphens at
/// positions 8, 13, 18 and 23, lowercase hexadecimal digits elsewhere.
/// The digits are random: nothing else is said of them.
#[verifier::external_body]
fn random_uuid_text() -> (r: String)
    ensures
        r@.len() == 36,
        forall|i: int|
            0 <= i < 36 && i != 8 && i != 13 && i != 18 && i != 23 ==> is_lower_hex(#[trigger] r@[i]),
        r@[8] == '-' && r@[13] == '-' && r@[18] == '-' && r@[23] == '-',
{
    uuid::Uuid::new_v4().to_string()
}

/// Every non-slug character of `s` replaced by a hyphen.
fn sanitize(s: &str) -> (r: String)
    ensures
        r@ == sanitized(s@),
{
    let n = s.unicode_len();
    let mut out = String::new();
    let mut i: usize = 0;
    while i < n
        invariant
            n == s@.len(),
            i <= n,
            out@ == sanitized(s@.subrange(0, i as int)),
        decreases n - i,
    {
        let c = s.get_char(i);
        let d = if slug_char(c) { c } else { '-' };
        push_char(&mut out, d);
        assert(s@.subrange(0, i + 1) =~= s@.subrange(0, i as int).push(c));
        assert(sanitized(s@.subrange(0, i + 1)) =~= sanitized(s@.subrange(0, i as int)).push(d));
        i = i + 1;
    }
    assert(s@.subrange(0, n as int) =~= s@);
    out
}

proof fn lemma_trim_start_noop(s: Seq<char>)
    requires
        s.len() > 0,
        s[0] != '-',
    ensures
        trim_hyphens(s) == trim_end_hyphens(s),
{
}

proof fn lemma_sanitized_chars(s: Seq<char>)
    ensures
        sanitized(s).len() == s.len(),
        forall|i: int| 0 <= i < s.len() ==> is_slug_char(#[trigger] sanitized(s)[i]),
{
}

/// A string of slug characters that neither starts nor ends with a hyphen.
pub open spec fn clean_slug_chars(r: Seq<char>) -> bool {
    &&& forall|i: int| 0 <= i < r.len() ==> is_slug_char(#[trigger] r[i])
    &&& r.len() > 0 ==> r[0] != '-' && r.last() != '-'
}

proof fn lemma_trim_start_keeps(s: Seq<char>)
    ensures
        clean_start(trim_start_hyphens(s)),
        is_subrange_of(trim_start_hyphens(s), s),
    decreases s.len(),
{
    if s.len() > 0 && s[0] == '-' {
        lemma_trim_start_keeps(s.drop_first());
        let t = trim_start_hyphens(s.drop_first());
        let (a, b) = choose|a: int, b: int| 0 <= a <= b <= s.drop_first().len() && t == s.drop_first().subrange(a, b);
        assert(t == s.subrange(a + 1, b + 1));
    } else {
        assert(s == s.subrange(0, s.len() as int));
    }
}

/// `r` is a contiguous piece of `s`.
pub open spec fn is_subrange_of(r: Seq<char>, s: Seq<char>) -> bool {
    exists|a: int, b: int| 0 <= a <= b <= s.len() && r == s.subrange(a, b)
}

/// `r` is empty or does not start with a hyphen.
pub open spec fn clean_start(r: Seq<char>) -> bool {
    r.len() > 0 ==> r[0] != '-'
}

proof fn lemma_trim_end_keeps(s: Seq<char>)
    requires
        clean_start(s),
    ensures
        clean_start(trim_end_hyphens(s)),
        trim_end_hyphens(s).len() > 0 ==> trim_end_hyphens(s).last() != '-',
        trim_end_hyphens(s).len() <= s.len(),
        trim_end_hyphens(s) == s.subrange(0, trim_end_hyphens(s).len() as int),
        s.len() > 0 ==> trim_end_hyphens(s).len() > 0,
    decreases s.len(),
{
    if s.len() > 0 && s.last() == '-' {
        let t = s.drop_last();
        if t.len() > 0 {
            assert(t[0] == s[0]);
        }
        lemma_trim_end_keeps(t);
        let u = trim_end_hyphens(t);
        assert(u == t.subrange(0, u.len() as int));
        assert(t.subrange(0, u.len() as int) =~= s.subrange(0, u.len() as int));
    } else {
        assert(s == s.subrange(0, s.len() as int));
    }
}

proof fn lemma_subrange_slug_chars(s: Seq<char>, a: int, b: int)
    requires
        0 <= a <= b <= s.len(),
        forall|i: int| 0 <= i < s.len() ==> is_slug_char(#[trigger] s[i]),
    ensures
        forall|i: int| 0 <= i < b - a ==> is_slug_char(#[trigger] s.subrange(a, b)[i]),
{
    assert forall|i: int| 0 <= i < b - a implies is_slug_char(#[trigger] s.subrange(a, b)[i]) by {
        assert(s.subrange(a, b)[i] == s[i + a]);
    }
}

/// An organization's owner is never removed.
pub proof fn law_owner_is_never_removed(actor: Option<ActorMembership>, r: Step<OrgRead, (), OrgServiceError>)
    requires
        call_ensures(
            OrganizationService::remove_member_step,
            (&RemoveMemberReads { actor: Some(actor), target_is_owner: Some(Some(true)) },),
            r,
        ),
    ensures
        !(r matches Step::Answer(Ok(_))),
{
}

/// A personal organization is never deleted.
pub proof fn law_personal_org_is_never_deleted(actor: Option<Option<ActorMembership>>, r: Step<
    OrgRead,
    (),
    OrgServiceError,
>)
    requires
        call_ensures(
            OrganizationService::delete_org_step,
            (&DeleteOrgReads { org: Some(Some(true)), actor },),
            r,
        ),
    ensures
        r matches Step::Answer(Err(OrgServiceError::CannotDeletePersonal)),
{
}

/// Slug characters with no hyphen at either end, for any handle.
proof fn lemma_base_clean(h: Seq<char>)
    ensures
        clean_slug_chars(handle_slug_base(h)),
{
    let s = sanitized(lowercase(bsky_stripped(h)));
    lemma_sanitized_chars(lowercase(bsky_stripped(h)));
    lemma_trim_start_keeps(s);
    let t = trim_start_hyphens(s);
    let (a, b) = choose|a: int, b: int| 0 <= a <= b <= s.len() && t == s.subrange(a, b);
    lemma_subrange_slug_chars(s, a, b);
    lemma_trim_end_keeps(t);
    let u = trim_end_hyphens(t);
    lemma_subrange_slug_chars(t, 0, u.len() as int);
}

/// `user-` followed by eight lowercase hexadecimal digits passes slug
/// validation.
proof fn lemma_fallback_slug_valid(r: Seq<char>)
    requires
        is_fallback_slug(r),
    ensures
        slug_problem(r) is None,
{
    assert(r[0] == r.subrange(0, 5)[0]);
    assert forall|i: int| 0 <= i < r.len() implies is_slug_char(#[trigger] r[i]) by {
        if i < 5 {
            assert(r[i] == r.subrange(0, 5)[i]);
        } else {
            assert(is_lower_hex(r[i]));
        }
    }
    assert(is_lower_hex(r[12]));
    assert(is_ascii_chars(r)) by {
        assert forall|i: int| 0 <= i < r.len() implies '\0' <= #[trigger] r[i] <= '\u{7f}' by {
            assert(is_slug_char(r[i]));
        }
    }
    is_ascii_chars_encode_utf8(r);
    reveal_strlit("me");
    reveal_strlit("new");
    reveal_strlit("admin");
    reveal_strlit("settings");
    reveal_strlit("api");
    reveal_strlit("auth");
    reveal_strlit("organizations");
    reveal_strlit("users");
    reveal_strlit("search");
    reveal_strlit("explore");
    reveal_strlit("notifications");
    reveal_strlit("help");
    reveal_strlit("about");
    reveal_strlit("terms");
    reveal_strlit("privacy");
    assert(r[0] == 'u');
    assert("organizations"@[0] == 'o');
    assert("notifications"@[0] == 'n');
}

/// A slug derived from a handle always passes slug validation: it is a
/// valid slug for personal organization creation.
pub proof fn law_handle_slug_is_valid(h: Seq<char>, r: Seq<char>)
    requires
        slug_from_handle_result(h, r),
    ensures
        slug_problem(r) is None,
{
    match handle_slug_candidate(h) {
        Some(c) => {
            if slug_problem(c) is Some {
                lemma_fallback_slug_valid(r);
            }
        },
        None => lemma_fallback_slug_valid(r),
    }
}

/// Each of the fifteen reserved names, as it is refused.
proof fn lemma_reserved_name_refused(s: Seq<char>)
    requires
        s == "me"@ || s == "new"@ || s == "admin"@ || s == "settings"@ || s == "api"@ || s
            == "auth"@ || s == "organizations"@ || s == "users"@ || s == "search"@ || s
            == "explore"@ || s == "notifications"@ || s == "help"@ || s == "about"@ || s
            == "terms"@ || s == "privacy"@,
    ensures
        slug_problem(s) == Some("'"@ + s + "' is a reserved name"@),
{
    reveal_strlit("me");
    reveal_strlit("new");
    reveal_strlit("admin");
    reveal_strlit("settings");
    reveal_strlit("api");
    reveal_strlit("auth");
    reveal_strlit("organizations");
    reveal_strlit("users");
    reveal_strlit("search");
    reveal_strlit("explore");
    reveal_strlit("notifications");
    reveal_strlit("help");
    reveal_strlit("about");
    reveal_strlit("terms");
    reveal_strlit("privacy");
    assert forall|i: int| 0 <= i < s.len() implies 'a' <= #[trigger] s[i] <= 'z' by {}
    assert(is_ascii_chars(s)) by {
        assert forall|i: int| 0 <= i < s.len() implies '\0' <= #[trigger] s[i] <= '\u{7f}' by {
            assert('a' <= s[i] <= 'z');
        }
    }
    is_ascii_chars_encode_utf8(s);
    assert(forall|i: int| 0 <= i < s.len() ==> is_slug_char(#[trigger] s[i]));
}

/// Every reserved name (me, new, admin, settings, api, auth, organizations,
/// users, search, explore, notifications, help, about, terms, privacy) is
/// refused as a slug, and so as the slug of a new organization, with the
/// message that names it.
pub proof fn law_reserved_names_are_refused(
    s: &str,
    display_name: &str,
    v: Result<(), OrgServiceError>,
    c: Result<NewOrganization, OrgServiceError>,
)
    requires
        s@ == "me"@ || s@ == "new"@ || s@ == "admin"@ || s@ == "settings"@ || s@ == "api"@ || s@
            == "auth"@ || s@ == "organizations"@ || s@ == "users"@ || s@ == "search"@ || s@
            == "explore"@ || s@ == "notifications"@ || s@ == "help"@ || s@ == "about"@ || s@
            == "terms"@ || s@ == "privacy"@,
        call_ensures(OrganizationService::validate_slug, (s,), v),
        call_ensures(OrganizationService::custom_org, (s, display_name), c),
    ensures
        v matches Err(OrgServiceError::InvalidSlug(m)) && m@ == "'"@ + s@ + "' is a reserved name"@,
        c matches Err(OrgServiceError::InvalidSlug(m)) && m@ == "'"@ + s@ + "' is a reserved name"@,
{
    lemma_reserved_name_refused(s@);
}

impl OrganizationService {
    /// Validate a slug against format rules and reserved words.
    ///
    /// Rules: lowercase alphanumeric + hyphens, 2-64 bytes, cannot start/end
    /// with hyphen, not in the reserved list. The error names the first rule
    /// broken.
    pub fn validate_slug(slug: &str) -> (r: Result<(), OrgServiceError>)
        ensures
            match slug_problem(slug@) {
                None => r is Ok,
                Some(m) => r matches Err(OrgServiceError::InvalidSlug(msg)) && msg@ == m,
            },
    {
        let len = slug.as_bytes().len();
        if len < 2 || len > 64 {
            return Err(OrgServiceError::InvalidSlug(
                "Slug must be between 2 and 64 characters".to_string(),
            ));
        }
        if !all_slug_chars(slug) {
            assert(slug_problem(slug@) == Some(
                "Slug must contain only lowercase letters, numbers, and hyphens"@,
            ));
            return Err(OrgServiceError::InvalidSlug(
                "Slug must contain only lowercase letters, numbers, and hyphens".to_string(),
            ));
        }
        proof {
            vstd::utf8::is_ascii_chars_encode_utf8(slug@);
        }
        let n = slug.unicode_len();
        if slug.get_char(0) == '-' || slug.get_char(n - 1) == '-' {
            return Err(OrgServiceError::InvalidSlug(
                "Slug cannot start or end with a hyphen".to_string(),
            ));
        }
        if reserved_slug(slug) {
            let mut msg = String::from_str("'");
            msg.append(slug);
            msg.append("' is a reserved name");
            return Err(OrgServiceError::InvalidSlug(msg));
        }
        Ok(())
    }

    /// Sanitize a handle into a valid slug for personal org creation: strips
    /// a `.bsky.social` suffix, lowercases, replaces invalid characters with
    /// hyphens and trims hyphens at both ends; one longer than 64 characters
    /// is cut to 64 and loses its trailing hyphens. A result that is shorter
    /// than two characters or fails slug validation (a reserved name) is
    /// replaced by `user-` and eight random hexadecimal digits.
    pub fn slug_from_handle(handle: &str) -> (r: String)
        ensures
            slug_from_handle_result(handle@, r@),
            slug_problem(r@) is None,
    {
        let suffix = ".bsky.social";
        let n = handle.unicode_len();
        let base_src: &str = if ends_with(handle, suffix) {
            let m = suffix.unicode_len();
            handle.substring_char(0, n - m)
        } else {
            handle
        };
        assert(base_src@ == bsky_stripped(handle@));
        let lowered = to_lowercase(base_src);
        let clean = sanitize(lowered.as_str());
        let trimmed = trim_hyphen_ends(clean.as_str());
        let len = trimmed.as_str().unicode_len();
        let r = if len < 2 {
            random_fallback_slug()
        } else {
            let candidate = if len > 64 {
                let head = trimmed.as_str().substring_char(0, 64);
                proof {
                    lemma_base_clean(handle@);
                    assert(head@[0] == trimmed@[0]);
                    lemma_trim_start_noop(head@);
                }
                trim_hyphen_ends(head)
            } else {
                trimmed
            };
            match Self::validate_slug(candidate.as_str()) {
                Ok(()) => candidate,
                Err(_) => random_fallback_slug(),
            }
        };
        proof {
            law_handle_slug_is_valid(handle@, r@);
        }
        r
    }

    /// The slug a handle falls back to: `user-` and the first eight
    /// characters of a UUID's text.
    pub fn fallback_slug(uuid_text: &str) -> (r: String)
        requires
            uuid_text@.len() >= 8,
        ensures
            r@ == "user-"@ + uuid_text@.subrange(0, 8),
    {
        let prefix = uuid_text.substring_char(0, 8);
        let mut out = String::from_str("user-");
        out.append(prefix);
        out
    }
}

/// A fallback slug on a freshly drawn UUID.
fn random_fallback_slug() -> (r: String)
    ensures
        is_fallback_slug(r@),
{
    let id = random_uuid_text();
    let r = OrganizationService::fallback_slug(id.as_str());
    proof {
        reveal_strlit("user-");
        assert(r@.subrange(0, 5) =~= seq!['u', 's', 'e', 'r', '-']);
        assert forall|i: int| 5 <= i < 13 implies is_lower_hex(#[trigger] r@[i]) by {
            assert(r@[i] == id@[i - 5]);
        }
    }
    r
}

/// Whether `s` is one of the reserved slugs.
fn reserved_slug(s: &str) -> (r: bool)
    ensures
        r == is_reserved_slug(s@),
{
    str_eq(s, "me") || str_eq(s, "new") || str_eq(s, "admin") || str_eq(s, "settings")
        || str_eq(s, "api") || str_eq(s, "auth") || str_eq(s, "organizations") || str_eq(
        s,
        "users",
    ) || str_eq(s, "search") || str_eq(s, "explore") || str_eq(s, "notifications") || str_eq(
        s,
        "help",
    ) || str_eq(s, "about") || str_eq(s, "terms") || str_eq(s, "privacy")
}

/// How the actor stands in an organization: whether it owns it, and whether
/// its membership holds the permission the operation needs.
#[derive(Debug, Clone, Copy)]
pub struct ActorMembership {
    pub is_owner: bool,
    pub has_permission: bool,
}

/// The permissions a new membership is given.
#[derive(Debug, Clone, Copy, PartialEq, Eq, Structural)]
pub enum PermissionSet {
    /// Every permission, as owners hold.
    All,
    /// The default permissions of a new member.
    Default,
}

/// A membership to add to an organization.
#[derive(Debug)]
pub struct NewMembership {
    pub role: String,
    pub title: Option<String>,
    pub is_owner: bool,
    pub permissions: PermissionSet,
}

/// What updating a member changes once the permission check passed: its
/// role and title, and then, for the owner only, its permissions.
#[derive(Debug, Clone, Copy, PartialEq, Eq, Structural)]
pub enum MemberUpdate {
    RoleAndTitle,
    RoleTitleThenPermissions,
}

/// An organization to create.
#[derive(Debug)]
pub struct NewOrganization {
    pub slug: String,
    pub display_name: Option<String>,
    pub is_personal: bool,
}

/// The fact an organization use case reads next.
#[derive(Debug, Clone, Copy, PartialEq, Eq, Structural)]
pub enum OrgRead {
    Organization,
    ActorMembership,
    TargetMembership,
}

/// The facts deleting an organization reads; `None` marks one not read.
pub struct DeleteOrgReads {
    pub org: Option<Option<bool>>,
    pub actor: Option<Option<ActorMembership>>,
}

/// The facts removing a member reads; `None` marks one not read.
pub struct RemoveMemberReads {
    pub actor: Option<Option<ActorMembership>>,
    pub target_is_owner: Option<Option<bool>>,
}

/// A failure reported by the organization repository, with its text.
#[derive(Debug)]
pub enum OrgRepoError {
    SlugTaken { slug: String, text: String },
    Other { text: String },
}

impl OrganizationService {
    /// Only the organization's owner passes; a non-member is refused too.
    pub fn require_owner(actor: Option<ActorMembership>) -> (r: Result<ActorMembership, OrgServiceError>)
        ensures
            match actor {
                Some(m) => if m.is_owner {
                    r matches Ok(v) && v == m
                } else {
                    r matches Err(OrgServiceError::Forbidden)
                },
                None => r matches Err(OrgServiceError::Forbidden),
            },
    {
        match actor {
            Some(m) => {
                if m.is_owner {
                    Ok(m)
                } else {
                    Err(OrgServiceError::Forbidden)
                }
            },
            None => Err(OrgServiceError::Forbidden),
        }
    }

    /// Only a member holding the required permission passes.
    pub fn require_permission(actor: Option<ActorMembership>) -> (r: Result<ActorMembership, OrgServiceError>)
        ensures
            match actor {
                Some(m) => if m.has_permission {
                    r matches Ok(v) && v == m
                } else {
                    r matches Err(OrgServiceError::Forbidden)
                },
                None => r matches Err(OrgServiceError::Forbidden),
            },
    {
        match actor {
            Some(m) => {
                if m.has_permission {
                    Ok(m)
                } else {
                    Err(OrgServiceError::Forbidden)
                }
            },
            None => Err(OrgServiceError::Forbidden),
        }
    }

    /// The next step of soft-deleting an organization: it must exist and
    /// not be personal (`reads.org`: `Some(None)` not found, else whether it
    /// is personal), then the actor must own it (`reads.actor`: `Some(None)`
    /// for a non-member). An `Ok` answer means: soft-delete it.
    pub fn delete_org_step(reads: &DeleteOrgReads) -> (r: Step<OrgRead, (), OrgServiceError>)
        ensures
            match reads.org {
                None => r matches Step::Read(OrgRead::Organization),
                Some(None) => r matches Step::Answer(Err(OrgServiceError::NotFound)),
                Some(Some(true)) => r matches Step::Answer(Err(OrgServiceError::CannotDeletePersonal)),
                Some(Some(false)) => match reads.actor {
                    None => r matches Step::Read(OrgRead::ActorMembership),
                    Some(Some(m)) => if m.is_owner {
                        r matches Step::Answer(Ok(()))
                    } else {
                        r matches Step::Answer(Err(OrgServiceError::Forbidden))
                    },
                    Some(None) => r matches Step::Answer(Err(OrgServiceError::Forbidden)),
                },
            },
    {
        match reads.org {
            None => Step::Read(OrgRead::Organization),
            Some(None) => Step::Answer(Err(OrgServiceError::NotFound)),
            Some(Some(true)) => Step::Answer(Err(OrgServiceError::CannotDeletePersonal)),
            Some(Some(false)) => match reads.actor {
                None => Step::Read(OrgRead::ActorMembership),
                Some(actor) => match Self::require_owner(actor) {
                    Ok(_) => Step::Answer(Ok(())),
                    Err(e) => Step::Answer(Err(e)),
                },
            },
        }
    }

    /// The next step of removing a member: the actor needs the
    /// member-management permission (`reads.actor`: `Some(None)` for a
    /// non-member); the target must be a member (`reads.target`:
    /// `Some(None)` when not), and never the owner. An `Ok` answer means:
    /// remove the membership.
    pub fn remove_member_step(reads: &RemoveMemberReads) -> (r: Step<OrgRead, (), OrgServiceError>)
        ensures
            match reads.actor {
                None => r matches Step::Read(OrgRead::ActorMembership),
                Some(a) => if !(a matches Some(m) && m.has_permission) {
                    r matches Step::Answer(Err(OrgServiceError::Forbidden))
                } else {
                    match reads.target_is_owner {
                        None => r matches Step::Read(OrgRead::TargetMembership),
                        Some(None) => r matches Step::Answer(Err(OrgServiceError::NotFound)),
                        Some(Some(true)) => r matches Step::Answer(
                            Err(OrgServiceError::CannotRemoveOwner),
                        ),
                        Some(Some(false)) => r matches Step::Answer(Ok(())),
                    }
                },
            },
    {
        match reads.actor {
            None => Step::Read(OrgRead::ActorMembership),
            Some(actor) => match Self::require_permission(actor) {
                Err(e) => Step::Answer(Err(e)),
                Ok(_) => match reads.target_is_owner {
                    None => Step::Read(OrgRead::TargetMembership),
                    Some(None) => Step::Answer(Err(OrgServiceError::NotFound)),
                    Some(Some(true)) => Step::Answer(Err(OrgServiceError::CannotRemoveOwner)),
                    Some(Some(false)) => Step::Answer(Ok(())),
                },
            },
        }
    }

    /// Updating a member: the actor needs the member-management permission;
    /// role and title are then updated, and, when new permissions are given,
    /// the owner check follows before they are applied.
    pub fn plan_member_update(actor: Option<ActorMembership>, permissions_given: bool) -> (r: Result<
        MemberUpdate,
        OrgServiceError,
    >)
        ensures
            !(actor matches Some(m) && m.has_permission) ==> r matches Err(OrgServiceError::Forbidden),
            (actor matches Some(m) && m.has_permission) && permissions_given ==> r matches Ok(
                MemberUpdate::RoleTitleThenPermissions,
            ),
            (actor matches Some(m) && m.has_permission) && !permissions_given ==> r matches Ok(
                MemberUpdate::RoleAndTitle,
            ),
    {
        match Self::require_permission(actor) {
            Err(e) => Err(e),
            Ok(_) => {
                if permissions_given {
                    Ok(MemberUpdate::RoleTitleThenPermissions)
                } else {
                    Ok(MemberUpdate::RoleAndTitle)
                }
            },
        }
    }

    /// The membership of an organization's creator: role `owner`, no
    /// title, owner, every permission.
    pub fn owner_membership() -> (r: NewMembership)
        ensures
            r.role@ == "owner"@,
            r.title is None,
            r.is_owner,
            r.permissions == PermissionSet::All,
    {
        NewMembership {
            role: "owner".to_string(),
            title: None,
            is_owner: true,
            permissions: PermissionSet::All,
        }
    }

    /// The membership of a member added by a manager: the role and title
    /// given, not owner, default permissions.
    pub fn added_membership(role: &str, title: Option<&str>) -> (r: NewMembership)
        ensures
            r.role@ == role@,
            match title {
                Some(t) => r.title matches Some(u) && u@ == t@,
                None => r.title is None,
            },
            !r.is_owner,
            r.permissions == PermissionSet::Default,
    {
        let title = match title {
            Some(t) => Some(t.to_string()),
            None => None,
        };
        NewMembership {
            role: role.to_string(),
            title,
            is_owner: false,
            permissions: PermissionSet::Default,
        }
    }

    /// The organization a lookup found; none is not found.
    pub fn require_org<O>(org: Option<O>) -> (r: Result<O, OrgServiceError>)
        ensures
            match org {
                Some(o) => r matches Ok(v) && v == o,
                None => r matches Err(OrgServiceError::NotFound),
            },
    {
        match org {
            Some(o) => Ok(o),
            None => Err(OrgServiceError::NotFound),
        }
    }

    /// The organization a user creates: the slug and display name given,
    /// not personal. The slug must pass validation first.
    pub fn custom_org(slug: &str, display_name: &str) -> (r: Result<NewOrganization, OrgServiceError>)
        ensures
            match slug_problem(slug@) {
                None => r matches Ok(o) && o.slug@ == slug@ && (o.display_name matches Some(
                    d,
                ) && d@ == display_name@) && !o.is_personal,
                Some(m) => r matches Err(OrgServiceError::InvalidSlug(msg)) && msg@ == m,
            },
    {
        match Self::validate_slug(slug) {
            Err(e) => Err(e),
            Ok(()) => Ok(
                NewOrganization {
                    slug: slug.to_string(),
                    display_name: Some(display_name.to_string()),
                    is_personal: false,
                },
            ),
        }
    }

    /// The personal organization created at signup: the slug given, no
    /// display name (the owner's handle stands for it), personal.
    pub fn personal_org(slug: &str) -> (r: NewOrganization)
        ensures
            r.slug@ == slug@,
            r.display_name is None,
            r.is_personal,
    {
        NewOrganization { slug: slug.to_string(), display_name: None, is_personal: true }
    }

    /// How a failure of creating an organization is reported: a taken slug
    /// keeps its slug; anything else is internal, with its text.
    pub fn create_error(e: OrgRepoError) -> (r: OrgServiceError)
        ensures
            match e {
                OrgRepoError::SlugTaken { slug, .. } => r == OrgServiceError::SlugTaken(slug),
                OrgRepoError::Other { text } => r == OrgServiceError::Internal(text),
            },
    {
        match e {
            OrgRepoError::SlugTaken { slug, .. } => OrgServiceError::SlugTaken(slug),
            OrgRepoError::Other { text } => OrgServiceError::Internal(text),
        }
    }
}

} // verus!
