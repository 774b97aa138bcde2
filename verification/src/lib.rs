//! Business rules of the Zurfur application layer: validation, permission
//! gates and decision procedures of the use cases, verified with Verus.
pub mod account;
pub mod auth;
pub mod commission;
pub mod feed;
pub mod onboarding;
pub mod organization;
pub mod ports;
pub mod step;
pub mod tag;
pub mod text;
pub mod user;
