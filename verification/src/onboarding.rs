//! Onboarding rules: which system feeds a first login creates on the
//! user's personal organization.
use vstd::prelude::*;
use vstd::string::*;
use crate::step::Step;
use crate::text::str_eq;

verus! {

broadcast use {vstd::string::group_string_axioms, vstd::seq_lib::group_seq_properties};

/// Errors from onboarding operations.
#[derive(Debug)]
pub enum OnboardingError {
    UserNotFound,
    PersonalOrgNotFound,
    Internal(String),
}

/// A system feed to create: its slug and its display name.
#[derive(Debug, Clone)]
pub struct SystemFeed {
    pub slug: String,
    pub display_name: String,
}

/// A feed as slug and display name.
pub type FeedName = (Seq<char>, Seq<char>);

/// The view of a system feed.
pub open spec fn feed_name(f: SystemFeed) -> FeedName {
    (f.slug@, f.display_name@)
}

/// The views of a list of system feeds.
pub open spec fn feed_names(v: Seq<SystemFeed>) -> Seq<FeedName> {
    v.map_values(|f: SystemFeed| feed_name(f))
}

/// The views of a list of strings.
pub open spec fn texts(v: Seq<String>) -> Seq<Seq<char>> {
    v.map_values(|s: String| s@)
}

/// The system feeds every personal organization gets, in order: bio,
/// updates and gallery, then commissions for roles that take commissions.
pub open spec fn system_feed_catalog(with_commissions: bool) -> Seq<FeedName> {
    let base = seq![("bio"@, "Bio"@), ("updates"@, "Updates"@), ("gallery"@, "Gallery"@)];
    if with_commissions {
        base.push(("commissions"@, "Commissions"@))
    } else {
        base
    }
}

/// The catalog feeds whose slug is not among `existing`, in catalog order.
pub open spec fn missing_feeds(with_commissions: bool, existing: Seq<Seq<char>>) -> Seq<FeedName> {
    system_feed_catalog(with_commissions).filter(|f: FeedName| !existing.contains(f.0))
}

/// What completing onboarding does.
pub enum OnboardingPlan {
    /// Onboarding was completed before: nothing is created.
    AlreadyCompleted,
    /// Create these feeds, then mark onboarding completed.
    CreateFeeds(Vec<SystemFeed>),
}

/// The facts completing onboarding reads; `None` marks one not read yet.
pub struct OnboardingReads {
    /// `Some(None)` for an unknown user, else whether onboarding was
    /// completed before.
    pub user: Option<Option<bool>>,
    pub personal_org_found: Option<bool>,
    /// The slugs of the feeds the personal organization has.
    pub existing_slugs: Option<Vec<String>>,
}

/// The fact completing onboarding reads next.
#[derive(Debug, Clone, Copy, PartialEq, Eq, Structural)]
pub enum OnboardingRead {
    User,
    PersonalOrg,
    ExistingFeeds,
}

/// The rules behind the onboarding service.
pub struct OnboardingService;

fn listed(existing: &Vec<String>, slug: &str) -> (r: bool)
    ensures
        r == texts(existing@).contains(slug@),
{
    let n = existing.len();
    let mut i: usize = 0;
    while i < n
        invariant
            n == existing@.len(),
            i <= n,
            forall|k: int| 0 <= k < i ==> existing@[k]@ != slug@,
        decreases n - i,
    {
        if str_eq(existing[i].as_str(), slug) {
            assert(texts(existing@)[i as int] == slug@);
            return true;
        }
        i = i + 1;
    }
    assert(!texts(existing@).contains(slug@)) by {
        if texts(existing@).contains(slug@) {
            let k = choose|k: int| 0 <= k < texts(existing@).len() && texts(existing@)[k] == slug@;
            assert(existing@[k]@ == slug@);
        }
    }
    false
}

fn catalog(with_commissions: bool) -> (r: Vec<SystemFeed>)
    ensures
        feed_names(r@) == system_feed_catalog(with_commissions),
{
    let mut v: Vec<SystemFeed> = Vec::new();
    v.push(SystemFeed { slug: "bio".to_string(), display_name: "Bio".to_string() });
    v.push(SystemFeed { slug: "updates".to_string(), display_name: "Updates".to_string() });
    v.push(SystemFeed { slug: "gallery".to_string(), display_name: "Gallery".to_string() });
    if with_commissions {
        v.push(
            SystemFeed { slug: "commissions".to_string(), display_name: "Commissions".to_string() },
        );
    }
    assert(feed_names(v@) =~= system_feed_catalog(with_commissions));
    v
}

impl OnboardingService {
    /// The system feeds still to create: the catalog for the role, less the
    /// feeds whose slug the organization already has, in catalog order.
    pub fn missing_system_feeds(with_commissions: bool, existing_slugs: &Vec<String>) -> (r: Vec<
        SystemFeed,
    >)
        ensures
            feed_names(r@) == missing_feeds(with_commissions, texts(existing_slugs@)),
    {
        let all = catalog(with_commissions);
        let ghost cat = system_feed_catalog(with_commissions);
        let ghost existing = texts(existing_slugs@);
        let ghost pred = |f: FeedName| !existing.contains(f.0);
        let mut out: Vec<SystemFeed> = Vec::new();
        let n = all.len();
        let mut i: usize = 0;
        while i < n
            invariant
                n == all@.len(),
                i <= n,
                feed_names(all@) == cat,
                existing == texts(existing_slugs@),
                pred == (|f: FeedName| !existing.contains(f.0)),
                feed_names(out@) == cat.take(i as int).filter(pred),
            decreases n - i,
        {
            let f = SystemFeed {
                slug: all[i].slug.clone(),
                display_name: all[i].display_name.clone(),
            };
            assert(cat.take(i + 1) =~= cat.take(i as int).push(cat[i as int]));
            proof {
                cat.take(i as int).lemma_filter_push(cat[i as int], pred);
            }
            let present = listed(existing_slugs, f.slug.as_str());
            assert(feed_name(f) == cat[i as int]);
            if !present {
                out.push(f);
                assert(feed_names(out@) =~= cat.take(i as int).filter(pred).push(cat[i as int]));
            }
            i = i + 1;
        }
        assert(cat.take(n as int) =~= cat);
        out
    }

    /// The next step of completing onboarding: the user must exist
    /// (`reads.user`: `Some(None)` when unknown, else whether onboarding was
    /// completed before); a completed onboarding creates nothing; the
    /// user's personal organization must exist; then the feeds it has are
    /// read, and the missing system feeds are to be created.
    pub fn step(with_commissions: bool, reads: &OnboardingReads) -> (r: Step<
        OnboardingRead,
        OnboardingPlan,
        OnboardingError,
    >)
        ensures
            match reads.user {
                None => r matches Step::Read(OnboardingRead::User),
                Some(None) => r matches Step::Answer(Err(OnboardingError::UserNotFound)),
                Some(Some(true)) => r matches Step::Answer(Ok(OnboardingPlan::AlreadyCompleted)),
                Some(Some(false)) => match reads.personal_org_found {
                    None => r matches Step::Read(OnboardingRead::PersonalOrg),
                    Some(false) => r matches Step::Answer(Err(OnboardingError::PersonalOrgNotFound)),
                    Some(true) => match reads.existing_slugs {
                        None => r matches Step::Read(OnboardingRead::ExistingFeeds),
                        Some(existing) => r matches Step::Answer(Ok(OnboardingPlan::CreateFeeds(v)))
                            && feed_names(v@) == missing_feeds(with_commissions, texts(existing@)),
                    },
                },
            },
    {
        match reads.user {
            None => Step::Read(OnboardingRead::User),
            Some(None) => Step::Answer(Err(OnboardingError::UserNotFound)),
            Some(Some(true)) => Step::Answer(Ok(OnboardingPlan::AlreadyCompleted)),
            Some(Some(false)) => match reads.personal_org_found {
                None => Step::Read(OnboardingRead::PersonalOrg),
                Some(false) => Step::Answer(Err(OnboardingError::PersonalOrgNotFound)),
                Some(true) => match &reads.existing_slugs {
                    None => Step::Read(OnboardingRead::ExistingFeeds),
                    Some(existing) => Step::Answer(
                        Ok(
                            OnboardingPlan::CreateFeeds(
                                Self::missing_system_feeds(with_commissions, existing),
                            ),
                        ),
                    ),
                },
            },
        }
    }
}

/// No feed that onboarding plans already exists on the organization.
pub proof fn law_onboarding_creates_no_duplicates(with_commissions: bool, existing: Seq<Seq<char>>)
    ensures
        forall|i: int|
            0 <= i < missing_feeds(with_commissions, existing).len() ==> !existing.contains(
                #[trigger] missing_feeds(with_commissions, existing)[i].0,
            ),
{
    let pred = |f: FeedName| !existing.contains(f.0);
    let m = missing_feeds(with_commissions, existing);
    assert forall|i: int| 0 <= i < m.len() implies !existing.contains(#[trigger] m[i].0) by {
        system_feed_catalog(with_commissions).lemma_filter_pred(pred, i);
    }
}

/// Onboarding is idempotent: once the planned feeds exist, planning again
/// creates nothing.
pub proof fn law_onboarding_twice_creates_nothing(with_commissions: bool, existing: Seq<Seq<char>>)
    ensures
        missing_feeds(
            with_commissions,
            existing + missing_feeds(with_commissions, existing).map_values(|f: FeedName| f.0),
        ).len() == 0,
{
    let cat = system_feed_catalog(with_commissions);
    let m = missing_feeds(with_commissions, existing);
    let slugs = m.map_values(|f: FeedName| f.0);
    let after = existing + slugs;
    let pred1 = |f: FeedName| !existing.contains(f.0);
    let pred2 = |f: FeedName| !after.contains(f.0);
    assert forall|j: int| 0 <= j < cat.len() implies !pred2(cat[j]) by {
        if existing.contains(cat[j].0) {
            let k = choose|k: int| 0 <= k < existing.len() && existing[k] == cat[j].0;
            assert(after[k] == cat[j].0);
        } else {
            assert(cat.contains(cat[j]));
            cat.lemma_filter_contains_rev(pred1, cat[j]);
            assert(m.contains(cat[j]));
            let k = choose|k: int| 0 <= k < m.len() && m[k] == cat[j];
            assert(slugs[k] == cat[j].0);
            assert(after[existing.len() + k] == slugs[k]);
            assert(after.contains(cat[j].0));
        }
    }
    cat.lemma_all_neg_filter_empty(pred2);
}

proof fn lemma_filter_keeps_all(s: Seq<FeedName>, p: spec_fn(FeedName) -> bool)
    requires
        forall|i: int| 0 <= i < s.len() ==> p(#[trigger] s[i]),
    ensures
        s.filter(p) == s,
    decreases s.len(),
{
    reveal(Seq::filter);
    if s.len() > 0 {
        let t = s.drop_last();
        assert forall|i: int| 0 <= i < t.len() implies p(#[trigger] t[i]) by {
            assert(t[i] == s[i]);
        }
        lemma_filter_keeps_all(t, p);
        assert(t.push(s.last()) =~= s);
    }
}

/// Onboarding plans system feeds only, each under its own display name:
/// `bio` as Bio, `updates` as Updates, `gallery` as Gallery, and, for a role
/// that takes commissions only, `commissions` as Commissions. An
/// organization without feeds gets all of them, in that order.
pub proof fn law_onboarding_feed_catalog(
    with_commissions: bool,
    existing: Vec<String>,
    r: Step<OnboardingRead, OnboardingPlan, OnboardingError>,
)
    requires
        call_ensures(
            OnboardingService::step,
            (
                with_commissions,
                &(OnboardingReads {
                    user: Some(Some(false)),
                    personal_org_found: Some(true),
                    existing_slugs: Some(existing),
                }),
            ),
            r,
        ),
    ensures
        r matches Step::Answer(Ok(OnboardingPlan::CreateFeeds(v))) && forall|i: int|
            0 <= i < v@.len() ==> {
                let f = #[trigger] v@[i];
                ||| f.slug@ == "bio"@ && f.display_name@ == "Bio"@
                ||| f.slug@ == "updates"@ && f.display_name@ == "Updates"@
                ||| f.slug@ == "gallery"@ && f.display_name@ == "Gallery"@
                ||| with_commissions && f.slug@ == "commissions"@ && f.display_name@
                    == "Commissions"@
            },
        r matches Step::Answer(Ok(OnboardingPlan::CreateFeeds(v))) && forall|i: int, j: int|
            0 <= i < v@.len() && 0 <= j < existing@.len() ==> #[trigger] existing@[j]@
                != #[trigger] v@[i].slug@,
        r matches Step::Answer(Ok(OnboardingPlan::CreateFeeds(v))) && {
            &&& (forall|j: int| 0 <= j < existing@.len() ==> #[trigger] existing@[j]@ != "bio"@)
                ==> exists|i: int| 0 <= i < v@.len() && #[trigger] v@[i].slug@ == "bio"@
            &&& (forall|j: int| 0 <= j < existing@.len() ==> #[trigger] existing@[j]@
                != "updates"@) ==> exists|i: int| 0 <= i < v@.len() && #[trigger] v@[i].slug@
                == "updates"@
            &&& (forall|j: int| 0 <= j < existing@.len() ==> #[trigger] existing@[j]@
                != "gallery"@) ==> exists|i: int| 0 <= i < v@.len() && #[trigger] v@[i].slug@
                == "gallery"@
            &&& with_commissions && (forall|j: int| 0 <= j < existing@.len() ==> #[trigger] existing@[j]@
                != "commissions"@) ==> exists|i: int| 0 <= i < v@.len() && #[trigger] v@[i].slug@
                == "commissions"@
        },
        existing@.len() == 0 ==> (r matches Step::Answer(Ok(OnboardingPlan::CreateFeeds(v))) && {
            &&& v@.len() == if with_commissions { 4int } else { 3int }
            &&& v@[0].slug@ == "bio"@ && v@[0].display_name@ == "Bio"@
            &&& v@[1].slug@ == "updates"@ && v@[1].display_name@ == "Updates"@
            &&& v@[2].slug@ == "gallery"@ && v@[2].display_name@ == "Gallery"@
            &&& with_commissions ==> v@[3].slug@ == "commissions"@ && v@[3].display_name@
                == "Commissions"@
        }),
{
    let ex = texts(existing@);
    let cat = system_feed_catalog(with_commissions);
    let pred = |f: FeedName| !ex.contains(f.0);
    if let Step::Answer(Ok(OnboardingPlan::CreateFeeds(v))) = r {
        let names = feed_names(v@);
        assert(names == cat.filter(pred));
        assert forall|i: int| 0 <= i < v@.len() implies {
            let f = #[trigger] v@[i];
            ||| f.slug@ == "bio"@ && f.display_name@ == "Bio"@
            ||| f.slug@ == "updates"@ && f.display_name@ == "Updates"@
            ||| f.slug@ == "gallery"@ && f.display_name@ == "Gallery"@
            ||| with_commissions && f.slug@ == "commissions"@ && f.display_name@ == "Commissions"@
        } by {
            assert(names[i] == feed_name(v@[i]));
            assert(cat.filter(pred).contains(names[i]));
            cat.lemma_filter_contains_rev(pred, names[i]);
            let k = choose|k: int| 0 <= k < cat.len() && cat[k] == names[i];
        }
        assert forall|i: int, j: int| 0 <= i < v@.len() && 0 <= j < existing@.len() implies #[trigger] existing@[j]@
            != #[trigger] v@[i].slug@ by {
            assert(names[i] == feed_name(v@[i]));
            cat.lemma_filter_pred(pred, i);
            assert(ex[j] == existing@[j]@);
        }
        assert forall|k: int| 0 <= k < cat.len() && pred(cat[k]) implies exists|i: int|
            0 <= i < v@.len() && #[trigger] v@[i].slug@ == (#[trigger] cat[k]).0 by {
            cat.lemma_filter_contains(pred, k);
            let i = choose|i: int| 0 <= i < names.len() && names[i] == cat[k];
            assert(names[i] == feed_name(v@[i]));
        }
        assert forall|t: Seq<char>| (forall|j: int| 0 <= j < existing@.len() ==> #[trigger] existing@[j]@ != t)
            implies !ex.contains(t) by {
            if ex.contains(t) {
                let j = choose|j: int| 0 <= j < ex.len() && ex[j] == t;
                assert(existing@[j]@ == t);
            }
        }
        assert(cat[0].0 == "bio"@);
        assert(cat[1].0 == "updates"@);
        assert(cat[2].0 == "gallery"@);
        if with_commissions {
            assert(cat[3].0 == "commissions"@);
        }
        if existing@.len() == 0 {
            assert forall|i: int| 0 <= i < cat.len() implies pred(#[trigger] cat[i]) by {}
            lemma_filter_keeps_all(cat, pred);
            assert(names.len() == v@.len());
            assert(names[0] == feed_name(v@[0]));
            assert(names[1] == feed_name(v@[1]));
            assert(names[2] == feed_name(v@[2]));
            if with_commissions {
                assert(names[3] == feed_name(v@[3]));
            }
        }
    }
}

} // verus!
