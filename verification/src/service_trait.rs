use vstd::prelude::*;

use crate::errors::RepoError;
use crate::rows::{has_id, id_set, remove_id, row_for, unique_ids, update_rows};
use crate::user_model::{views_of, User, UserView};

verus! {

/// The service-level CRUD contract over the `User` entity. It presents the
/// same operations as the repository, with one added rule: a successful
/// update returns the freshly re-read persisted row, never an echo of the
/// caller's input.
pub trait ServiceTrait: Sized {
    /// The rows persisted behind the service, in storage order. As with
    /// the repository, verified implementations override this; under the
    /// default empty model the contracts describe no real backend.
    open spec fn rows(&self) -> Seq<UserView> {
        Seq::empty()
    }

    /// Whether the storage layered behind the service can fail for
    /// external reasons; see `RepositoryTrait::infallible`.
    open spec fn infallible(&self) -> bool {
        false
    }

    /// Passes the insert through to the repository.
    fn create(&mut self, item: User) -> (r: Result<User, RepoError>)
        requires
            unique_ids(old(self).rows()),
        ensures
            unique_ids(final(self).rows()),
            r matches Ok(c) ==> !has_id(old(self).rows(), item@.id) && c@ == item@
                && final(self).rows() == old(self).rows().push(item@),
            r is Err ==> final(self).rows() == old(self).rows(),
            has_id(old(self).rows(), item@.id) ==> r is Err,
            final(self).infallible() == old(self).infallible(),
            old(self).infallible() && !has_id(old(self).rows(), item@.id) ==> r is Ok,
    ;

    /// Passes the single-row lookup through to the repository.
    fn get_by_id(&self, id: String) -> (r: Result<User, RepoError>)
        requires
            unique_ids(self.rows()),
        ensures
            r matches Ok(u) ==> row_for(self.rows(), id@, u@),
            !has_id(self.rows(), id@) ==> r is Err,
            self.infallible() && has_id(self.rows(), id@) ==> r is Ok,
            self.infallible() && !has_id(self.rows(), id@) ==> (r matches Err(e) && e
                == RepoError::NotFound),
    ;

    /// Passes the listing through to the repository.
    fn get_all(&self) -> (r: Result<Vec<User>, RepoError>)
        requires
            unique_ids(self.rows()),
        ensures
            r matches Ok(v) ==> views_of(v@) == self.rows()
                && id_set(views_of(v@)) == id_set(self.rows()),
            self.infallible() ==> r is Ok,
    ;

    /// Writes the two mutable fields of the row carrying `item.id`, then
    /// re-fetches that row so the caller observes server-confirmed state.
    /// A row returned on success is therefore the freshly-read persisted
    /// row; since an update keyed by `item.id` can leave only `item`
    /// itself under that identifier, it equals `item` in value. When the
    /// underlying write fails its error is propagated unchanged and the
    /// fetch is skipped; an error from the fetch itself is propagated
    /// after the write has already taken effect.
    fn update(&mut self, item: User) -> (r: Result<User, RepoError>)
        requires
            unique_ids(old(self).rows()),
        ensures
            unique_ids(final(self).rows()),
            r matches Ok(v) ==> final(self).rows() == update_rows(old(self).rows(), item@)
                && row_for(final(self).rows(), item@.id, v@) && v@ == item@,
            r is Err ==> final(self).rows() == old(self).rows() || final(self).rows()
                == update_rows(old(self).rows(), item@),
            final(self).infallible() == old(self).infallible(),
            old(self).infallible() && has_id(old(self).rows(), item@.id) ==> r is Ok,
            old(self).infallible() && !has_id(old(self).rows(), item@.id) ==> (r matches Err(e)
                && e == RepoError::NotFound),
    ;

    /// Passes the delete through to the repository.
    fn delete(&mut self, id: String) -> (r: Result<(), RepoError>)
        requires
            unique_ids(old(self).rows()),
        ensures
            unique_ids(final(self).rows()),
            r is Ok ==> final(self).rows() == remove_id(old(self).rows(), id@),
            r is Err ==> final(self).rows() == old(self).rows(),
            final(self).infallible() == old(self).infallible(),
            old(self).infallible() ==> r is Ok,
    ;
}

} // verus!
