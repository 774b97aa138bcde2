//! Use cases about the acting user: the namespace they hang from and the
//! errors of the user service.
use vstd::prelude::*;

verus! {

/// User use cases, bound to the ports `P` they run over. Needs no optional
/// port, so it is built from any ports.
pub struct Users<'a, P> {
    ports: &'a P,
}

impl<'a, P> Users<'a, P> {
    pub closed spec fn spec_ports(&self) -> &'a P {
        self.ports
    }

    /// Bind the namespace to the ports.
    pub fn new(ports: &'a P) -> (r: Self)
        ensures
            r.spec_ports() == ports,
    {
        Users { ports }
    }

    /// The ports this namespace was built over.
    pub fn ports(&self) -> (r: &'a P)
        ensures
            r == self.spec_ports(),
    {
        self.ports
    }
}

/// Errors of the user service.
#[derive(Debug)]
pub enum UserServiceError {
    NotFound,
    InvalidRating(String),
    Internal(String),
}

/// The rules behind the user service.
pub struct UserService;

impl UserService {
    /// The user a profile is assembled for; an unknown user is not found.
    pub fn require_user<U>(user: Option<U>) -> (r: Result<U, UserServiceError>)
        ensures
            match user {
                Some(u) => r matches Ok(v) && v == u,
                None => r matches Err(UserServiceError::NotFound),
            },
    {
        match user {
            Some(u) => Ok(u),
            None => Err(UserServiceError::NotFound),
        }
    }
}

} // verus!
