//! Authentication rules: refresh-token hashing, session expiry, access-token
//! claims, OAuth redirect and subject checks, and the decisions of login.
use base64::Engine;
use sha2::Digest;
use vstd::prelude::*;
use vstd::string::*;
use crate::organization::{slug_from_handle_result, slug_problem, OrganizationService};
use crate::text::{has_prefix, push_char, starts_with};

verus! {

broadcast use vstd::string::group_string_axioms;

/// Why a login step failed.
#[derive(Debug)]
pub enum LoginError {
    InvalidEmail,
    UserNotFound,
    InternalError(String),
    IdentityResolverFailed,
    PdsNotFound,
    OAuth(String),
    InvalidState,
    DidMismatch,
}

/// Session tokens after OAuth completion; store these and use the access
/// token for API calls.
#[derive(Debug, Clone)]
pub struct AtprotoSession {
    pub did: String,
    pub handle: Option<String>,
    pub email: Option<String>,
    pub access_token: String,
    pub refresh_token: Option<String>,
    pub expires_in_secs: u32,
}

/// Result of starting the OAuth flow: redirect the user to this URL.
#[derive(Debug, Clone)]
pub struct OAuthStartResult {
    pub redirect_url: String,
    pub state: String,
}

/// Claims embedded in platform JWTs (short-lived access tokens).
#[derive(Debug, Clone)]
pub struct ZurfurClaims {
    /// User UUID
    pub sub: String,
    /// AT Protocol DID
    pub did: String,
    pub handle: Option<String>,
    /// Unix timestamp expiration
    pub exp: i64,
}

/// Returned by `POST /auth/start`.
pub struct StartLoginResponse {
    pub redirect_url: String,
    pub state: String,
}

/// Returned by `POST /auth/refresh`.
pub struct RefreshResponse {
    pub access_token: String,
    pub refresh_token: String,
}

// --- Refresh token hashing -------------------------------------------------

/// What `sha2::Sha256::digest` returns for a byte string: its SHA-256 digest.
pub uninterp spec fn sha256(data: Seq<u8>) -> Seq<u8>;

/// Calls `sha2::Sha256::digest`; its 32-byte output is named [`sha256`].
#[verifier::external_body]
fn sha256_digest(data: &[u8]) -> (r: Vec<u8>)
    ensures
        r@ == sha256(data@),
        r@.len() == 32,
{
    sha2::Sha256::digest(data).to_vec()
}

/// The lowercase hexadecimal digit of `d`, for `d < 16`.
pub open spec fn hex_digit(d: u8) -> char {
    if d < 10 {
        ((d + 48) as u8) as char
    } else {
        ((d + 87) as u8) as char
    }
}

/// Each byte written as two lowercase hexadecimal digits, high nibble first.
pub open spec fn hex_lower(bytes: Seq<u8>) -> Seq<char>
    decreases bytes.len(),
{
    if bytes.len() == 0 {
        seq![]
    } else {
        seq![hex_digit(bytes[0] / 16), hex_digit(bytes[0] % 16)] + hex_lower(bytes.drop_first())
    }
}

proof fn lemma_hex_lower_len(bytes: Seq<u8>)
    ensures
        hex_lower(bytes).len() == 2 * bytes.len(),
    decreases bytes.len(),
{
    if bytes.len() > 0 {
        lemma_hex_lower_len(bytes.drop_first());
    }
}

fn hex_char(d: u8) -> (c: char)
    requires
        d < 16,
    ensures
        c == hex_digit(d),
{
    match d {
        0 => '0',
        1 => '1',
        2 => '2',
        3 => '3',
        4 => '4',
        5 => '5',
        6 => '6',
        7 => '7',
        8 => '8',
        9 => '9',
        10 => 'a',
        11 => 'b',
        12 => 'c',
        13 => 'd',
        14 => 'e',
        _ => 'f',
    }
}

/// Bytes written in lowercase hexadecimal.
fn to_hex_lower(data: &[u8]) -> (r: String)
    ensures
        r@ == hex_lower(data@),
{
    let n = data.len();
    let mut out = String::new();
    let mut i: usize = 0;
    assert(data@.skip(0) =~= data@);
    while i < n
        invariant
            n == data@.len(),
            i <= n,
            hex_lower(data@) =~= out@ + hex_lower(data@.skip(i as int)),
        decreases n - i,
    {
        let b = data[i];
        push_char(&mut out, hex_char(b / 16));
        push_char(&mut out, hex_char(b % 16));
        assert(data@.skip(i as int).drop_first() =~= data@.skip(i + 1));
        i = i + 1;
    }
    out
}

proof fn lemma_hex_digit_injective(x: u8, y: u8)
    requires
        x < 16,
        y < 16,
        hex_digit(x) == hex_digit(y),
    ensures
        x == y,
{
    assert(hex_digit(x) as u32 == if x < 10 { x + 48 } else { x + 87 });
    assert(hex_digit(y) as u32 == if y < 10 { y + 48 } else { y + 87 });
}

/// The hexadecimal form loses nothing: distinct digests are stored as
/// distinct hashes.
pub proof fn law_hex_lower_injective(a: Seq<u8>, b: Seq<u8>)
    requires
        hex_lower(a) == hex_lower(b),
    ensures
        a == b,
    decreases a.len(),
{
    lemma_hex_lower_len(a);
    lemma_hex_lower_len(b);
    if a.len() > 0 {
        let ha = seq![hex_digit(a[0] / 16), hex_digit(a[0] % 16)];
        let hb = seq![hex_digit(b[0] / 16), hex_digit(b[0] % 16)];
        let ra = hex_lower(a.drop_first());
        let rb = hex_lower(b.drop_first());
        assert(hex_lower(a) == ha + ra);
        assert(hex_lower(b) == hb + rb);
        assert((ha + ra)[0] == (hb + rb)[0]);
        assert((ha + ra)[1] == (hb + rb)[1]);
        lemma_hex_digit_injective(a[0] / 16, b[0] / 16);
        lemma_hex_digit_injective(a[0] % 16, b[0] % 16);
        assert(a[0] == b[0]);
        assert(ra =~= (ha + ra).subrange(2, (ha + ra).len() as int));
        assert(rb =~= (hb + rb).subrange(2, (hb + rb).len() as int));
        law_hex_lower_injective(a.drop_first(), b.drop_first());
        assert(a =~= seq![a[0]] + a.drop_first());
        assert(b =~= seq![b[0]] + b.drop_first());
    } else {
        assert(a =~= b);
    }
}

/// SHA-256 hash a raw refresh token for storage: the digest of its UTF-8
/// bytes in lowercase hexadecimal, 64 characters.
pub fn hash_token(raw: &str) -> (r: String)
    ensures
        r@ == hex_lower(sha256(raw.spec_bytes())),
        r@.len() == 64,
{
    let digest = sha256_digest(raw.as_bytes());
    let r = to_hex_lower(digest.as_slice());
    proof {
        lemma_hex_lower_len(digest@);
    }
    r
}

// --- Sessions and tokens -----------------------------------------------------

/// The shortest lifetime an AT Protocol session is stored with, in seconds.
pub const MIN_SESSION_SECS: i64 = 1;

/// The longest lifetime an AT Protocol session is stored with: one year.
pub const MAX_SESSION_SECS: i64 = 31536000;

/// The lifetime an AT Protocol session is stored with: the lifetime the
/// server granted, clamped to between one second and one year.
pub open spec fn clamped_session_secs(expires_in_secs: u32) -> int {
    if expires_in_secs < MIN_SESSION_SECS {
        MIN_SESSION_SECS as int
    } else if expires_in_secs > MAX_SESSION_SECS {
        MAX_SESSION_SECS as int
    } else {
        expires_in_secs as int
    }
}

/// Decide [`clamped_session_secs`].
pub fn session_lifetime_secs(expires_in_secs: u32) -> (r: i64)
    ensures
        r == clamped_session_secs(expires_in_secs),
{
    let secs = expires_in_secs as i64;
    if secs < MIN_SESSION_SECS {
        MIN_SESSION_SECS
    } else if secs > MAX_SESSION_SECS {
        MAX_SESSION_SECS
    } else {
        secs
    }
}

/// A stored refresh token may be exchanged until its expiry instant: one
/// that expired before `now` is refused as an invalid state.
pub fn check_refresh_expiry(expires_at: i64, now: i64) -> (r: Result<(), LoginError>)
    ensures
        expires_at < now <==> r is Err,
        expires_at < now ==> r matches Err(LoginError::InvalidState),
{
    if expires_at < now {
        Err(LoginError::InvalidState)
    } else {
        Ok(())
    }
}

/// The DID a refreshed access token is issued for: a user without one
/// cannot be issued a token.
pub fn claims_did(did: Option<String>) -> (r: Result<String, LoginError>)
    ensures
        match did {
            Some(d) => r matches Ok(s) && s == d,
            None => r matches Err(LoginError::InternalError(m)) && m@ == "User has no DID"@,
        },
{
    match did {
        Some(d) => Ok(d),
        None => Err(LoginError::InternalError("User has no DID".to_string())),
    }
}

/// The instant a token issued at `now` (a Unix timestamp) expires after a
/// lifetime of `lifetime_secs` seconds.
pub fn expires_at(now: i64, lifetime_secs: u64) -> (r: i64)
    requires
        lifetime_secs <= i64::MAX,
        now + lifetime_secs <= i64::MAX,
    ensures
        r == now + lifetime_secs,
{
    now + lifetime_secs as i64
}

/// The claims of an access token issued at `now` (a Unix timestamp) for a
/// lifetime of `access_expiry_secs` seconds.
pub fn access_claims(
    user_id: String,
    did: &str,
    handle: &Option<String>,
    now: i64,
    access_expiry_secs: u64,
) -> (r: ZurfurClaims)
    requires
        access_expiry_secs <= i64::MAX,
        now + access_expiry_secs <= i64::MAX,
    ensures
        r.sub == user_id,
        r.did@ == did@,
        r.handle == *handle,
        r.exp == now + access_expiry_secs,
{
    ZurfurClaims {
        sub: user_id,
        did: did.to_string(),
        handle: handle.clone(),
        exp: expires_at(now, access_expiry_secs),
    }
}

// --- OAuth ------------------------------------------------------------------

/// How long an OAuth request waits for its callback, in seconds.
pub const OAUTH_REQUEST_TTL_SECS: i64 = 600;

/// The instant an OAuth request created at `now` expires.
pub fn oauth_request_expiry(now: i64) -> (r: i64)
    requires
        now + OAUTH_REQUEST_TTL_SECS <= i64::MAX,
    ensures
        r == now + OAUTH_REQUEST_TTL_SECS,
{
    now + OAUTH_REQUEST_TTL_SECS
}

/// The login hint kept for the callback: a handle is kept, a DID is not.
pub fn login_handle(handle_or_did: &str) -> (r: Option<String>)
    ensures
        has_prefix(handle_or_did@, "did:"@) ==> r is None,
        !has_prefix(handle_or_did@, "did:"@) ==> (r matches Some(h) && h@ == handle_or_did@),
{
    if starts_with(handle_or_did, "did:") {
        None
    } else {
        Some(handle_or_did.to_string())
    }
}

/// The PDS endpoint OAuth starts from: the first endpoint of the identity
/// document; none is an error.
pub fn pds_endpoint(endpoints: &Vec<String>) -> (r: Result<String, LoginError>)
    ensures
        endpoints@.len() > 0 ==> (r matches Ok(e) && e == endpoints@[0]),
        endpoints@.len() == 0 ==> r matches Err(LoginError::PdsNotFound),
{
    if endpoints.len() > 0 {
        Ok(endpoints[0].clone())
    } else {
        Err(LoginError::PdsNotFound)
    }
}

/// The subject a token response names must be the DID the login started
/// for; a missing or different subject is a mismatch.
pub fn verify_subject(sub: Option<String>, expected_did: &str) -> (r: Result<String, LoginError>)
    ensures
        match sub {
            Some(s) => if s@ == expected_did@ {
                r matches Ok(d) && d == s
            } else {
                r matches Err(LoginError::DidMismatch)
            },
            None => r matches Err(LoginError::DidMismatch),
        },
{
    match sub {
        Some(s) => {
            if crate::text::str_eq(s.as_str(), expected_did) {
                Ok(s)
            } else {
                Err(LoginError::DidMismatch)
            }
        },
        None => Err(LoginError::DidMismatch),
    }
}

/// A byte that `urlencoding::encode` leaves as it is: an ASCII letter or
/// digit, `-`, `.`, `_` or `~`.
pub open spec fn is_url_unreserved(b: u8) -> bool {
    (48 <= b <= 57) || (65 <= b <= 90) || (97 <= b <= 122) || b == 45 || b == 46 || b == 95
        || b == 126
}

/// The uppercase hexadecimal digit of `d`, for `d < 16`.
pub open spec fn upper_hex_digit(d: u8) -> char {
    if d < 10 {
        ((d + 48) as u8) as char
    } else {
        ((d + 55) as u8) as char
    }
}

/// Percent-encoding of a byte string: unreserved bytes stay, every other
/// byte becomes `%` and two uppercase hexadecimal digits.
pub open spec fn percent_encoded(bytes: Seq<u8>) -> Seq<char>
    decreases bytes.len(),
{
    if bytes.len() == 0 {
        seq![]
    } else {
        let b = bytes[0];
        let head = if is_url_unreserved(b) {
            seq![b as char]
        } else {
            seq!['%', upper_hex_digit(b / 16), upper_hex_digit(b % 16)]
        };
        head + percent_encoded(bytes.drop_first())
    }
}

/// Calls `urlencoding::encode`, which percent-encodes every byte of the
/// UTF-8 encoding except ASCII alphanumerics and `-`, `_`, `.`, `~`.
#[verifier::external_body]
fn url_encode(s: &str) -> (r: String)
    ensures
        r@ == percent_encoded(s.spec_bytes()),
{
    urlencoding::encode(s).into_owned()
}

/// The URL the user's browser is sent to after a pushed authorization
/// request: the authorization endpoint with the client id and the request
/// URI as percent-encoded query parameters.
pub fn authorization_redirect_url(
    authorization_endpoint: &str,
    client_id: &str,
    request_uri: &str,
) -> (r: String)
    ensures
        r@ == authorization_endpoint@ + "?client_id="@ + percent_encoded(client_id.spec_bytes())
            + "&request_uri="@ + percent_encoded(request_uri.spec_bytes()),
{
    let mut out = String::from_str(authorization_endpoint);
    out.append("?client_id=");
    let c = url_encode(client_id);
    out.append(c.as_str());
    out.append("&request_uri=");
    let q = url_encode(request_uri);
    out.append(q.as_str());
    out
}

/// The fields the public JWK in the client metadata carries beside the key
/// itself, in order: `use` is `sig`, `kid` is the key's `did:key` form (the
/// key id the OAuth client signs with), `alg` is `ES256`.
pub fn jwk_metadata_fields(kid: String) -> (r: Vec<(String, String)>)
    ensures
        r@.len() == 3,
        r@[0].0@ == "use"@ && r@[0].1@ == "sig"@,
        r@[1].0@ == "kid"@ && r@[1].1 == kid,
        r@[2].0@ == "alg"@ && r@[2].1@ == "ES256"@,
{
    let mut r: Vec<(String, String)> = Vec::new();
    r.push(("use".to_string(), "sig".to_string()));
    r.push(("kid".to_string(), kid));
    r.push(("alg".to_string(), "ES256".to_string()));
    r
}

// --- DPoP key storage ---------------------------------------------------------

/// The character of the standard base64 alphabet for a six-bit value:
/// `A`-`Z`, `a`-`z`, `0`-`9`, `+`, `/`.
pub open spec fn base64_digit(v: int) -> char {
    if v < 26 {
        ((v + 65) as u8) as char
    } else if v < 52 {
        ((v + 71) as u8) as char
    } else if v < 62 {
        ((v - 4) as u8) as char
    } else if v == 62 {
        '+'
    } else {
        '/'
    }
}

/// Standard base64 with padding: each group of three bytes becomes four
/// characters; a last group of one or two bytes is padded with `=`.
pub open spec fn base64_standard(b: Seq<u8>) -> Seq<char>
    decreases b.len(),
{
    if b.len() == 0 {
        seq![]
    } else if b.len() == 1 {
        seq![base64_digit((b[0] / 4) as int), base64_digit((b[0] % 4) * 16), '=', '=']
    } else if b.len() == 2 {
        seq![
            base64_digit((b[0] / 4) as int),
            base64_digit((b[0] % 4) * 16 + b[1] / 16),
            base64_digit((b[1] % 16) * 4),
            '=',
        ]
    } else {
        seq![
            base64_digit((b[0] / 4) as int),
            base64_digit((b[0] % 4) * 16 + b[1] / 16),
            base64_digit((b[1] % 16) * 4 + b[2] / 64),
            base64_digit((b[2] % 64) as int),
        ] + base64_standard(b.subrange(3, b.len() as int))
    }
}

/// What the standard base64 engine's `decode` returns for a string: the
/// decoded bytes, or the text of the decoding error.
pub uninterp spec fn base64_standard_decoded(s: Seq<char>) -> Result<Seq<u8>, Seq<char>>;

/// Calls `base64::engine::general_purpose::STANDARD.encode`, which writes
/// standard base64 with padding.
#[verifier::external_body]
fn base64_encode(bytes: &[u8]) -> (r: String)
    ensures
        r@ == base64_standard(bytes@),
{
    base64::engine::general_purpose::STANDARD.encode(bytes)
}

/// Calls `base64::engine::general_purpose::STANDARD.decode`; the decoded
/// bytes, or the displayed error, are named [`base64_standard_decoded`].
/// Canonical padded text, as the same engine's `encode` writes it, decodes
/// to the bytes it encodes.
#[verifier::external_body]
fn base64_decode(s: &str) -> (r: Result<Vec<u8>, String>)
    ensures
        match base64_standard_decoded(s@) {
            Ok(b) => r matches Ok(v) && v@ == b,
            Err(m) => r matches Err(t) && t@ == m,
        },
        forall|b: Seq<u8>| #![trigger base64_standard(b)] base64_standard(b) == s@ ==> r is Ok && r->Ok_0@ == b,
{
    base64::engine::general_purpose::STANDARD.decode(s).map_err(|e| e.to_string())
}

/// Key bytes as they are kept in OAuth request storage: standard base64.
pub fn serialize_key_bytes(bytes: &[u8]) -> (r: String)
    ensures
        r@ == base64_standard(bytes@),
{
    base64_encode(bytes)
}

/// The DPoP key bytes back from storage; undecodable text is an internal
/// error that quotes the decoder.
pub fn deserialize_dpop_key_bytes(stored: &str) -> (r: Result<Vec<u8>, LoginError>)
    ensures
        match base64_standard_decoded(stored@) {
            Ok(b) => r matches Ok(v) && v@ == b,
            Err(m) => r matches Err(LoginError::InternalError(t))
                && t@ == "Invalid stored DPoP key: "@ + m,
        },
        forall|b: Seq<u8>| #![trigger base64_standard(b)] base64_standard(b) == stored@ ==> r is Ok && r->Ok_0@ == b,
{
    match base64_decode(stored) {
        Ok(v) => Ok(v),
        Err(e) => {
            let mut msg = String::from_str("Invalid stored DPoP key: ");
            msg.append(e.as_str());
            Err(LoginError::InternalError(msg))
        },
    }
}

/// A DPoP key kept in storage reads back as the bytes it was stored from.
pub proof fn law_dpop_key_round_trip(
    bytes: &[u8],
    written: String,
    stored: &str,
    r: Result<Vec<u8>, LoginError>,
)
    requires
        call_ensures(serialize_key_bytes, (bytes,), written),
        stored@ == written@,
        call_ensures(deserialize_dpop_key_bytes, (stored,), r),
    ensures
        r matches Ok(v) && v@ == bytes@,
{
}

// --- Login decisions ------------------------------------------------------------

/// The handle a returning user's record is changed to: the session's handle
/// when it names one and it differs from the stored one; otherwise none.
pub open spec fn handle_refresh(stored: Option<String>, from_session: Option<String>) -> Option<
    String,
> {
    match from_session {
        Some(h) => if (stored matches Some(s) && s@ == h@) {
            None
        } else {
            Some(h)
        },
        None => None,
    }
}

/// The handle a returning user has once logged in: the refreshed one, if
/// any, else the stored one (handles can be reassigned on Bluesky).
pub open spec fn handle_after_login(stored: Option<String>, from_session: Option<String>) -> Option<
    String,
> {
    match handle_refresh(stored, from_session) {
        Some(h) => Some(h),
        None => stored,
    }
}

/// Decide [`handle_refresh`].
pub fn refreshed_handle(stored: &Option<String>, from_session: &Option<String>) -> (r: Option<
    String,
>)
    ensures
        r == handle_refresh(*stored, *from_session),
{
    match from_session {
        Some(h) => {
            let same = match stored {
                Some(s) => *s == *h,
                None => false,
            };
            if same {
                None
            } else {
                Some(h.clone())
            }
        },
        None => None,
    }
}

/// The slug of the personal organization created for a user who has none:
/// derived from the handle when there is one, else from `fallback` (the
/// session's DID for a new user; the stored DID, or `user`, for a returning
/// one).
pub fn personal_org_slug(handle: &Option<String>, fallback: &str) -> (r: String)
    ensures
        match handle {
            Some(h) => slug_from_handle_result(h@, r@),
            None => slug_from_handle_result(fallback@, r@),
        },
        slug_problem(r@) is None,
{
    match handle {
        Some(h) => OrganizationService::slug_from_handle(h.as_str()),
        None => OrganizationService::slug_from_handle(fallback),
    }
}

/// The text a returning user's slug falls back to without a handle: the
/// stored DID, or `user` when there is none.
pub fn returning_user_slug_fallback(did: &Option<String>) -> (r: String)
    ensures
        match did {
            Some(d) => r == *d,
            None => r@ == "user"@,
        },
{
    match did {
        Some(d) => d.clone(),
        None => "user".to_string(),
    }
}

/// What a returning user's record says of them: handle and DID.
#[derive(Debug, Clone)]
pub struct StoredUser {
    pub handle: Option<String>,
    pub did: Option<String>,
}

/// How far completing a login has come. `None` marks a fact not read yet.
pub struct LoginProgress {
    /// The user holding the session's DID; `Some(None)` when there is none.
    pub user: Option<Option<StoredUser>>,
    /// The returning user's handle was changed to the session's.
    pub handle_updated: bool,
    /// Whether the user has a personal organization.
    pub personal_org_found: Option<bool>,
    /// The new user was created from the session.
    pub user_created: bool,
    /// Creating the personal organization was tried; its failure is only
    /// reported, and the login goes on.
    pub personal_org_tried: bool,
}

/// What completing a login does next, once the tokens were exchanged.
#[derive(Debug)]
pub enum LoginAction {
    /// Look up the user holding the session's DID.
    FindUser,
    /// Change the returning user's stored handle to this one.
    UpdateHandle(String),
    /// Look up the user's personal organization.
    FindPersonalOrg,
    /// Create the user from the session's DID, handle and email.
    CreateUser,
    /// Create the user's personal organization with this slug.
    CreatePersonalOrg(String),
    /// Store the AT Protocol session for `session_secs` seconds, issue the
    /// platform tokens and answer.
    Finish { session_secs: i64, is_new_user: bool },
}

/// The text a returning user's personal organization slug is derived from:
/// the handle after login, else the stored DID, else `user`.
pub open spec fn returning_slug_source(u: StoredUser, session_handle: Option<String>) -> Seq<char> {
    match handle_after_login(u.handle, session_handle) {
        Some(h) => h@,
        None => match u.did {
            Some(d) => d@,
            None => "user"@,
        },
    }
}

/// The text a new user's personal organization slug is derived from: the
/// session's handle, else its DID.
pub open spec fn new_user_slug_source(session: AtprotoSession) -> Seq<char> {
    match session.handle {
        Some(h) => h@,
        None => session.did@,
    }
}

/// The next step of completing a login. A returning user's handle follows
/// the session's when it changed, and a personal organization is created
/// for one who has none; a new user is created, with a personal
/// organization. Then the session is stored and the tokens issued; the user
/// is new exactly when no user held the DID.
pub fn complete_login_step(session: &AtprotoSession, progress: &LoginProgress) -> (r: LoginAction)
    ensures
        match progress.user {
            None => r is FindUser,
            Some(Some(u)) => if !progress.handle_updated && handle_refresh(
                u.handle,
                session.handle,
            ) is Some {
                r matches LoginAction::UpdateHandle(h) && handle_refresh(u.handle, session.handle)
                    == Some(h)
            } else if progress.personal_org_found is None {
                r is FindPersonalOrg
            } else if progress.personal_org_found == Some(false) && !progress.personal_org_tried {
                r matches LoginAction::CreatePersonalOrg(slug) && slug_from_handle_result(
                    returning_slug_source(u, session.handle),
                    slug@,
                )
            } else {
                r == LoginAction::Finish {
                    session_secs: clamped_session_secs(session.expires_in_secs) as i64,
                    is_new_user: false,
                }
            },
            Some(None) => if !progress.user_created {
                r is CreateUser
            } else if !progress.personal_org_tried {
                r matches LoginAction::CreatePersonalOrg(slug) && slug_from_handle_result(
                    new_user_slug_source(*session),
                    slug@,
                )
            } else {
                r == LoginAction::Finish {
                    session_secs: clamped_session_secs(session.expires_in_secs) as i64,
                    is_new_user: true,
                }
            },
        },
{
    let finish_secs = session_lifetime_secs(session.expires_in_secs);
    match &progress.user {
        None => LoginAction::FindUser,
        Some(Some(u)) => {
            let refreshed = refreshed_handle(&u.handle, &session.handle);
            if !progress.handle_updated {
                if let Some(h) = refreshed {
                    return LoginAction::UpdateHandle(h);
                }
            }
            match progress.personal_org_found {
                None => LoginAction::FindPersonalOrg,
                Some(found) => {
                    if !found && !progress.personal_org_tried {
                        let handle = match refreshed_handle(&u.handle, &session.handle) {
                            Some(h) => Some(h),
                            None => u.handle.clone(),
                        };
                        let fallback = returning_user_slug_fallback(&u.did);
                        LoginAction::CreatePersonalOrg(personal_org_slug(&handle, fallback.as_str()))
                    } else {
                        LoginAction::Finish { session_secs: finish_secs, is_new_user: false }
                    }
                },
            }
        },
        Some(None) => {
            if !progress.user_created {
                LoginAction::CreateUser
            } else if !progress.personal_org_tried {
                LoginAction::CreatePersonalOrg(personal_org_slug(&session.handle, session.did.as_str()))
            } else {
                LoginAction::Finish { session_secs: finish_secs, is_new_user: true }
            }
        },
    }
}

/// A login never finishes before the user has a personal organization or
/// creating one was tried; it finishes as a new user's exactly when no user
/// held the session's DID, with the session kept between one second and
/// one year.
pub proof fn law_login_finish(session: AtprotoSession, progress: LoginProgress, r: LoginAction)
    requires
        call_ensures(complete_login_step, (&session, &progress), r),
        r is Finish,
    ensures
        progress.personal_org_found == Some(true) || progress.personal_org_tried,
        (r matches LoginAction::Finish { is_new_user, .. } && is_new_user) <==> (
        progress.user matches Some(None)),
        r matches LoginAction::Finish { session_secs, .. } && MIN_SESSION_SECS <= session_secs
            <= MAX_SESSION_SECS,
{
}

/// A returning user whose personal organization is missing gets one named
/// after their handle as it stands after login: the session's handle when
/// the session names one (the stored handle is first changed to it when it
/// differs), else the stored handle; only a user with no handle at all
/// falls back to the stored DID, then to `user`.
pub proof fn law_returning_personal_org_slug(
    session: AtprotoSession,
    progress: LoginProgress,
    u: StoredUser,
    r: LoginAction,
)
    requires
        progress.user == Some(Some(u)),
        progress.personal_org_found == Some(false),
        !progress.personal_org_tried,
        call_ensures(complete_login_step, (&session, &progress), r),
    ensures
        r is UpdateHandle || r is CreatePersonalOrg,
        r matches LoginAction::UpdateHandle(h) ==> !progress.handle_updated && session.handle
            == Some(h) && !(u.handle matches Some(s) && s@ == h@),
        (!progress.handle_updated && (session.handle matches Some(h) && !(u.handle matches Some(s)
            && s@ == h@))) ==> r is UpdateHandle,
        session.handle is None ==> r is CreatePersonalOrg,
        r matches LoginAction::CreatePersonalOrg(slug) ==> slug_from_handle_result(
            match session.handle {
                Some(h) => h@,
                None => match u.handle {
                    Some(h) => h@,
                    None => match u.did {
                        Some(d) => d@,
                        None => "user"@,
                    },
                },
            },
            slug@,
        ),
{
}

/// A login whose DID no user holds creates the user, then a personal
/// organization named after the session's handle, or after the DID when the
/// session names no handle.
pub proof fn law_new_user_personal_org_slug(
    session: AtprotoSession,
    progress: LoginProgress,
    r: LoginAction,
)
    requires
        progress.user == Some(None::<StoredUser>),
        !progress.personal_org_tried,
        call_ensures(complete_login_step, (&session, &progress), r),
    ensures
        !progress.user_created ==> r is CreateUser,
        progress.user_created ==> (r matches LoginAction::CreatePersonalOrg(slug)
            && slug_from_handle_result(
            match session.handle {
                Some(h) => h@,
                None => session.did@,
            },
            slug@,
        )),
{
}

} // verus!
