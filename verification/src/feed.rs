//! Feed rules: which organization owns a feed, who may change it, and the
//! errors reported to callers.
use vstd::prelude::*;
use vstd::string::*;

verus! {

/// Errors of the feed use cases.
#[derive(Debug)]
pub enum FeedServiceError {
    FeedNotFound,
    ItemNotFound,
    SystemFeedUndeletable,
    Forbidden,
    SlugTaken(String),
    Internal(String),
}

/// A failure reported by the feed repository, with the text it displays.
#[derive(Debug)]
pub enum FeedRepoError {
    SlugTaken { slug: String, text: String },
    NotFound { text: String },
    SystemFeedUndeletable { text: String },
    Other { text: String },
}

/// The entity a feed is attached to: whether it is an organization, and its id.
#[derive(Debug, Clone, Copy)]
pub struct FeedOwner {
    pub is_org: bool,
    pub entity_id: u128,
}

/// Who deletes a feed item: its author needs no permission; anyone else
/// needs the permission on the feed's organization.
#[derive(Debug, Clone, Copy, PartialEq, Eq, Structural)]
pub enum ItemDeletion {
    ByAuthor,
    NeedsPermission,
}

/// The rules behind the feed service.
pub struct FeedService;

impl FeedService {
    /// The organization owning a feed: a feed attached to nothing is not
    /// found; only organization-owned feeds can be managed.
    pub fn resolve_feed_org(owner: Option<FeedOwner>) -> (r: Result<u128, FeedServiceError>)
        ensures
            match owner {
                None => r matches Err(FeedServiceError::FeedNotFound),
                Some(o) => if o.is_org {
                    r matches Ok(id) && id == o.entity_id
                } else {
                    r matches Err(FeedServiceError::Forbidden)
                },
            },
    {
        match owner {
            None => Err(FeedServiceError::FeedNotFound),
            Some(o) => {
                if o.is_org {
                    Ok(o.entity_id)
                } else {
                    Err(FeedServiceError::Forbidden)
                }
            },
        }
    }

    /// The actor must be a member of the organization holding the required
    /// permission. `member` is `None` for a non-member, else whether the
    /// membership holds the permission.
    pub fn require_feed_permission(member: Option<bool>) -> (r: Result<(), FeedServiceError>)
        ensures
            member == Some(true) <==> r is Ok,
            member != Some(true) ==> r matches Err(FeedServiceError::Forbidden),
    {
        match member {
            Some(true) => Ok(()),
            _ => Err(FeedServiceError::Forbidden),
        }
    }

    /// Deleting a feed item: an unknown item is not found; its author may
    /// delete it, anyone else needs the organization permission.
    pub fn decide_delete_item(author_id: Option<u128>, actor_id: u128) -> (r: Result<
        ItemDeletion,
        FeedServiceError,
    >)
        ensures
            match author_id {
                None => r matches Err(FeedServiceError::ItemNotFound),
                Some(a) => if a == actor_id {
                    r matches Ok(ItemDeletion::ByAuthor)
                } else {
                    r matches Ok(ItemDeletion::NeedsPermission)
                },
            },
    {
        match author_id {
            None => Err(FeedServiceError::ItemNotFound),
            Some(a) => {
                if a == actor_id {
                    Ok(ItemDeletion::ByAuthor)
                } else {
                    Ok(ItemDeletion::NeedsPermission)
                }
            },
        }
    }

    /// How a failure of creating a feed is reported: a taken slug keeps its
    /// slug; anything else is internal, with its text.
    pub fn create_error(e: FeedRepoError) -> (r: FeedServiceError)
        ensures
            match e {
                FeedRepoError::SlugTaken { slug, .. } => r == FeedServiceError::SlugTaken(slug),
                FeedRepoError::NotFound { text } => r == FeedServiceError::Internal(text),
                FeedRepoError::SystemFeedUndeletable { text } => r == FeedServiceError::Internal(
                    text,
                ),
                FeedRepoError::Other { text } => r == FeedServiceError::Internal(text),
            },
    {
        match e {
            FeedRepoError::SlugTaken { slug, .. } => FeedServiceError::SlugTaken(slug),
            FeedRepoError::NotFound { text } => FeedServiceError::Internal(text),
            FeedRepoError::SystemFeedUndeletable { text } => FeedServiceError::Internal(text),
            FeedRepoError::Other { text } => FeedServiceError::Internal(text),
        }
    }

    /// How a failure of updating a feed is reported.
    pub fn update_error(e: FeedRepoError) -> (r: FeedServiceError)
        ensures
            match e {
                FeedRepoError::SlugTaken { text, .. } => r == FeedServiceError::Internal(text),
                FeedRepoError::NotFound { .. } => r is FeedNotFound,
                FeedRepoError::SystemFeedUndeletable { text } => r == FeedServiceError::Internal(
                    text,
                ),
                FeedRepoError::Other { text } => r == FeedServiceError::Internal(text),
            },
    {
        match e {
            FeedRepoError::SlugTaken { text, .. } => FeedServiceError::Internal(text),
            FeedRepoError::NotFound { .. } => FeedServiceError::FeedNotFound,
            FeedRepoError::SystemFeedUndeletable { text } => FeedServiceError::Internal(text),
            FeedRepoError::Other { text } => FeedServiceError::Internal(text),
        }
    }

    /// How a failure of deleting a feed is reported: system feeds cannot be
    /// deleted.
    pub fn delete_error(e: FeedRepoError) -> (r: FeedServiceError)
        ensures
            match e {
                FeedRepoError::SlugTaken { text, .. } => r == FeedServiceError::Internal(text),
                FeedRepoError::NotFound { .. } => r is FeedNotFound,
                FeedRepoError::SystemFeedUndeletable { .. } => r is SystemFeedUndeletable,
                FeedRepoError::Other { text } => r == FeedServiceError::Internal(text),
            },
    {
        match e {
            FeedRepoError::SlugTaken { text, .. } => FeedServiceError::Internal(text),
            FeedRepoError::NotFound { .. } => FeedServiceError::FeedNotFound,
            FeedRepoError::SystemFeedUndeletable { .. } => FeedServiceError::SystemFeedUndeletable,
            FeedRepoError::Other { text } => FeedServiceError::Internal(text),
        }
    }
}

} // verus!
