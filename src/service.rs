//! The service value: it owns the repository through which a driver carries
//! out the storage actions that the workflows of `flow` request.
use vstd::prelude::*;

verus! {

#[derive(Debug)]
pub struct AuthService<T> {
    repository: T,
}

impl<T> AuthService<T> {
    /// The repository the service was made with.
    pub closed spec fn held(&self) -> T {
        self.repository
    }

    /// A service over `repository`.
    pub fn new(repository: T) -> (r: Self)
        ensures
            r.held() == repository,
    {
        AuthService { repository }
    }

    /// The repository, for carrying out storage actions.
    pub fn repository(&self) -> (r: &T)
        ensures
            *r == self.held(),
    {
        &self.repository
    }
}

} // verus!
