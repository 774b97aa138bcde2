//! Tag rules: name normalization, immutable categories, listing limits and
//! the errors reported to callers.
use vstd::prelude::*;
use vstd::string::*;
use crate::text::{lowercase, to_lowercase, trim_white_space, trim_ws};

verus! {

broadcast use vstd::string::group_string_axioms;

/// Errors that can occur during tag operations.
#[derive(Debug)]
pub enum TagServiceError {
    NotFound,
    NotAttached,
    NameTaken(String),
    Immutable,
    InvalidCategory,
    InvalidName(String),
    AlreadyAttached,
    Internal(String),
}

/// The kind of a tag. Organization and character tags are identity markers
/// backed by an entity; metadata and general tags are submitted by users.
#[derive(Debug, Clone, Copy, PartialEq, Eq, Structural)]
pub enum TagCategory {
    Metadata,
    General,
    Organization,
    Character,
}

impl TagCategory {
    /// Organization and character tags cannot be created by users, nor
    /// updated, approved or deleted.
    pub open spec fn spec_is_immutable(self) -> bool {
        self == TagCategory::Organization || self == TagCategory::Character
    }

    /// Executable form of [`TagCategory::spec_is_immutable`].
    pub fn is_immutable(&self) -> (r: bool)
        ensures
            r == self.spec_is_immutable(),
    {
        match self {
            TagCategory::Organization | TagCategory::Character => true,
            _ => false,
        }
    }
}

/// A failure reported by the tag repository, with the text the failure
/// displays.
#[derive(Debug)]
pub enum TagRepoError {
    NameTaken { name: String, text: String },
    NotFound { text: String },
    Other { text: String },
}

/// A failure reported by the entity-tag repository, with the text the
/// failure displays.
#[derive(Debug)]
pub enum EntityTagRepoError {
    AlreadyAttached { text: String },
    NotFound { text: String },
    Other { text: String },
}

/// The normalized name: trimmed of white space, then lowercased.
pub open spec fn normalized_tag_name(name: Seq<char>) -> Seq<char> {
    lowercase(trim_ws(name))
}

/// The outcome of validating a tag name: the normalized name, or the
/// message of the rule it breaks (empty after trimming; over 100
/// characters after lowercasing).
pub open spec fn tag_name_outcome(name: Seq<char>) -> Result<Seq<char>, Seq<char>> {
    if trim_ws(name).len() == 0 {
        Err("Tag name cannot be empty"@)
    } else if normalized_tag_name(name).len() > 100 {
        Err("Tag name cannot exceed 100 characters"@)
    } else {
        Ok(normalized_tag_name(name))
    }
}

/// What an edit of a tag of this category may do: refused for immutable ones.
pub open spec fn mutable_outcome(category: TagCategory) -> bool {
    !category.spec_is_immutable()
}

/// The rules behind the tag service.
pub struct TagService;

impl TagService {
    /// Validate and normalize a tag name: trim whitespace, lowercase, check
    /// length (1-100 characters). Returns the normalized name on success.
    pub fn validate_tag_name(name: &str) -> (r: Result<String, TagServiceError>)
        ensures
            match tag_name_outcome(name@) {
                Ok(n) => r matches Ok(s) && s@ == n,
                Err(m) => r matches Err(TagServiceError::InvalidName(msg)) && msg@ == m,
            },
    {
        let trimmed = trim_white_space(name);
        if trimmed.unicode_len() == 0 {
            return Err(TagServiceError::InvalidName("Tag name cannot be empty".to_string()));
        }
        let normalized = to_lowercase(trimmed);
        if normalized.as_str().unicode_len() > 100 {
            return Err(
                TagServiceError::InvalidName("Tag name cannot exceed 100 characters".to_string()),
            );
        }
        Ok(normalized)
    }

    /// Guard: rejects organization/character tags, which are immutable
    /// identity markers.
    pub fn require_mutable(category: TagCategory) -> (r: Result<(), TagServiceError>)
        ensures
            mutable_outcome(category) <==> r is Ok,
            !mutable_outcome(category) ==> r matches Err(TagServiceError::Immutable),
    {
        if category.is_immutable() {
            Err(TagServiceError::Immutable)
        } else {
            Ok(())
        }
    }

    /// The checks before a user-submitted tag is created: the category must
    /// be a user category, then the name must validate. Returns the name to
    /// store.
    pub fn check_new_tag(category: TagCategory, name: &str) -> (r: Result<String, TagServiceError>)
        ensures
            category.spec_is_immutable() ==> r matches Err(TagServiceError::InvalidCategory),
            !category.spec_is_immutable() ==> match tag_name_outcome(name@) {
                Ok(n) => r matches Ok(s) && s@ == n,
                Err(m) => r matches Err(TagServiceError::InvalidName(msg)) && msg@ == m,
            },
    {
        if category.is_immutable() {
            return Err(TagServiceError::InvalidCategory);
        }
        Self::validate_tag_name(name)
    }

    /// The tag a lookup found; none is not found.
    pub fn require_tag<T>(tag: Option<T>) -> (r: Result<T, TagServiceError>)
        ensures
            match tag {
                Some(t) => r matches Ok(v) && v == t,
                None => r matches Err(TagServiceError::NotFound),
            },
    {
        match tag {
            Some(t) => Ok(t),
            None => Err(TagServiceError::NotFound),
        }
    }

    /// A page size for searches and listings, clamped to [1, 100].
    pub fn clamp_limit(limit: i64) -> (r: i64)
        ensures
            r == if limit < 1 { 1 } else if limit > 100 { 100 } else { limit },
    {
        if limit < 1 {
            1
        } else if limit > 100 {
            100
        } else {
            limit
        }
    }

    /// How a repository failure of creating a tag is reported: a taken name
    /// keeps its name; anything else is internal, with its text.
    pub fn create_error(e: TagRepoError) -> (r: TagServiceError)
        ensures
            match e {
                TagRepoError::NameTaken { name, .. } => r == TagServiceError::NameTaken(name),
                TagRepoError::NotFound { text } => r == TagServiceError::Internal(text),
                TagRepoError::Other { text } => r == TagServiceError::Internal(text),
            },
    {
        match e {
            TagRepoError::NameTaken { name, .. } => TagServiceError::NameTaken(name),
            TagRepoError::NotFound { text } => TagServiceError::Internal(text),
            TagRepoError::Other { text } => TagServiceError::Internal(text),
        }
    }

    /// How a repository failure of updating a tag is reported.
    pub fn update_error(e: TagRepoError) -> (r: TagServiceError)
        ensures
            match e {
                TagRepoError::NameTaken { name, .. } => r == TagServiceError::NameTaken(name),
                TagRepoError::NotFound { .. } => r is NotFound,
                TagRepoError::Other { text } => r == TagServiceError::Internal(text),
            },
    {
        match e {
            TagRepoError::NameTaken { name, .. } => TagServiceError::NameTaken(name),
            TagRepoError::NotFound { .. } => TagServiceError::NotFound,
            TagRepoError::Other { text } => TagServiceError::Internal(text),
        }
    }

    /// How a repository failure of deleting a tag is reported.
    pub fn delete_error(e: TagRepoError) -> (r: TagServiceError)
        ensures
            match e {
                TagRepoError::NameTaken { text, .. } => r == TagServiceError::Internal(text),
                TagRepoError::NotFound { .. } => r is NotFound,
                TagRepoError::Other { text } => r == TagServiceError::Internal(text),
            },
    {
        match e {
            TagRepoError::NameTaken { text, .. } => TagServiceError::Internal(text),
            TagRepoError::NotFound { .. } => TagServiceError::NotFound,
            TagRepoError::Other { text } => TagServiceError::Internal(text),
        }
    }

    /// How a failure of attaching a tag to an entity is reported.
    pub fn attach_error(e: EntityTagRepoError) -> (r: TagServiceError)
        ensures
            match e {
                EntityTagRepoError::AlreadyAttached { .. } => r is AlreadyAttached,
                EntityTagRepoError::NotFound { text } => r == TagServiceError::Internal(text),
                EntityTagRepoError::Other { text } => r == TagServiceError::Internal(text),
            },
    {
        match e {
            EntityTagRepoError::AlreadyAttached { .. } => TagServiceError::AlreadyAttached,
            EntityTagRepoError::NotFound { text } => TagServiceError::Internal(text),
            EntityTagRepoError::Other { text } => TagServiceError::Internal(text),
        }
    }

    /// How a failure of detaching a tag from an entity is reported.
    pub fn detach_error(e: EntityTagRepoError) -> (r: TagServiceError)
        ensures
            match e {
                EntityTagRepoError::AlreadyAttached { text } => r == TagServiceError::Internal(text),
                EntityTagRepoError::NotFound { .. } => r is NotAttached,
                EntityTagRepoError::Other { text } => r == TagServiceError::Internal(text),
            },
    {
        match e {
            EntityTagRepoError::AlreadyAttached { text } => TagServiceError::Internal(text),
            EntityTagRepoError::NotFound { .. } => TagServiceError::NotAttached,
            EntityTagRepoError::Other { text } => TagServiceError::Internal(text),
        }
    }
}

} // verus!
