use vstd::prelude::*;

use crate::errors::RepoError;
use crate::laws::lemma_update_confirms;
use crate::repository_trait::RepositoryTrait;
use crate::service_trait::ServiceTrait;
use crate::user_model::{User, UserView};

verus! {

/// The service layer: owns a repository and presents its CRUD contract,
/// adding one behavioral rule — after a successful update it re-fetches
/// the row by its identifier and returns that freshly-read row.
pub struct Service<R: RepositoryTrait> {
    pub repository: R,
}

impl<R: RepositoryTrait> Service<R> {
    /// Wires the service to the repository it will delegate to.
    pub fn new(repository: R) -> (r: Self)
        ensures
            r.repository == repository,
    {
        Service { repository }
    }
}

impl<R: RepositoryTrait> ServiceTrait for Service<R> {
    open spec fn rows(&self) -> Seq<UserView> {
        self.repository.rows()
    }

    open spec fn infallible(&self) -> bool {
        self.repository.infallible()
    }

    fn create(&mut self, item: User) -> (r: Result<User, RepoError>) {
        self.repository.create(item)
    }

    fn get_by_id(&self, id: String) -> (r: Result<User, RepoError>) {
        self.repository.get_by_id(id)
    }

    fn get_all(&self) -> (r: Result<Vec<User>, RepoError>) {
        self.repository.get_all()
    }

    fn update(&mut self, item: User) -> (r: Result<User, RepoError>) {
        let id = item.id.clone();
        let ghost itemv = item@;
        let result = self.repository.update(item);
        match result {
            Err(e) => Err(e),
            Ok(_) => {
                proof {
                    lemma_update_confirms(old(self).rows(), itemv);
                }
                self.repository.get_by_id(id)
            },
        }
    }

    fn delete(&mut self, id: String) -> (r: Result<(), RepoError>) {
        self.repository.delete(id)
    }
}

} // verus!
