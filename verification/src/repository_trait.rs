use vstd::prelude::*;

use crate::errors::RepoError;
use crate::rows::{has_id, id_set, remove_id, row_for, unique_ids, update_rows};
use crate::user_model::{views_of, User, UserView};

verus! {

/// Storage capability over the `User` entity: five CRUD operations, each a
/// single round trip to the backing store.
///
/// `rows` is the mathematical content of the store, in storage order; the
/// contracts keep its identifiers unique (the primary-key constraint). A
/// backend may fail — a connection fault, for instance — so the contracts
/// pin the state and the result on each outcome without promising that an
/// operation succeeds; the in-memory backend strengthens them to owe
/// success.
pub trait RepositoryTrait: Sized {
    /// The rows currently persisted, in storage order. The contracts
    /// below describe verified implementations, which override this with
    /// their own model. An unverified backend — a networked one — can
    /// leave the default, but the contracts then say nothing true about
    /// it: with an always-empty model, the `Ok` clauses of `create` and
    /// `get_all` are unreachable for an honest implementation.
    open spec fn rows(&self) -> Seq<UserView> {
        Seq::empty()
    }

    /// Whether this backend can fail for external reasons. Under the
    /// default, nothing promises that an operation succeeds; a verified
    /// backend that overrides it to true — the in-memory one — owes
    /// success, and a not-found kind on the failed lookup, as the
    /// conditional clauses below state.
    open spec fn infallible(&self) -> bool {
        false
    }

    /// Inserts `item` as a new row and returns the row as confirmed by the
    /// store. Inserting an identifier that is already present violates the
    /// primary-key constraint and fails; a failed insert leaves the rows
    /// unchanged.
    fn create(&mut self, item: User) -> (r: Result<User, RepoError>)
        requires
            unique_ids(old(self).rows()),
        ensures
            unique_ids(final(self).rows()),
            r matches Ok(c) ==> !has_id(old(self).rows(), item@.id) && c@ == item@
                && final(self).rows() == old(self).rows().push(item@),
            r is Err ==> final(self).rows() == old(self).rows(),
            has_id(old(self).rows(), item@.id) ==> r is Err,
            final(self).infallible() == old(self).infallible(),
            old(self).infallible() && !has_id(old(self).rows(), item@.id) ==> r is Ok,
    ;

    /// Selects the single row carrying `id`. A returned row carries `id`
    /// and is one of the persisted rows; when no row carries `id` the
    /// lookup fails.
    fn get_by_id(&self, id: String) -> (r: Result<User, RepoError>)
        requires
            unique_ids(self.rows()),
        ensures
            r matches Ok(u) ==> row_for(self.rows(), id@, u@),
            !has_id(self.rows(), id@) ==> r is Err,
            self.infallible() && has_id(self.rows(), id@) ==> r is Ok,
            self.infallible() && !has_id(self.rows(), id@) ==> (r matches Err(e) && e
                == RepoError::NotFound),
    ;

    /// Selects every row, in storage order. A successful listing returns
    /// each persisted row exactly once, so its identifiers are exactly the
    /// persisted identifiers.
    fn get_all(&self) -> (r: Result<Vec<User>, RepoError>)
        requires
            unique_ids(self.rows()),
        ensures
            r matches Ok(v) ==> views_of(v@) == self.rows()
                && id_set(views_of(v@)) == id_set(self.rows()),
            self.infallible() ==> r is Ok,
    ;

    /// Rewrites the two mutable fields of the row carrying `item.id`. When
    /// no row carries that identifier a successful update changes nothing:
    /// the store reports no missing row. A failed update leaves the rows
    /// unchanged.
    fn update(&mut self, item: User) -> (r: Result<(), RepoError>)
        requires
            unique_ids(old(self).rows()),
        ensures
            unique_ids(final(self).rows()),
            r is Ok ==> final(self).rows() == update_rows(old(self).rows(), item@),
            r is Err ==> final(self).rows() == old(self).rows(),
            final(self).infallible() == old(self).infallible(),
            old(self).infallible() ==> r is Ok,
    ;

    /// Removes the row carrying `id`. When no row carries it a successful
    /// delete changes nothing. A failed delete leaves the rows unchanged.
    fn delete(&mut self, id: String) -> (r: Result<(), RepoError>)
        requires
            unique_ids(old(self).rows()),
        ensures
            unique_ids(final(self).rows()),
            r is Ok ==> final(self).rows() == remove_id(old(self).rows(), id@),
            r is Err ==> final(self).rows() == old(self).rows(),
            final(self).infallible() == old(self).infallible(),
            old(self).infallible() ==> r is Ok,
    ;
}

} // verus!
