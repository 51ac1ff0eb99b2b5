use vstd::prelude::*;

use crate::errors::RepoError;
use crate::laws::{lemma_delete_removes, lemma_round_trip, lemma_update_confirms};
use crate::repository_trait::RepositoryTrait;
use crate::rows::{has_id, remove_id, unique_ids, update_rows};
use crate::user_model::{views_of, User, UserView};

verus! {

/// An in-memory repository: the verified model of the storage layer. Rows
/// live in a vector in insertion order; the primary-key constraint — no
/// two rows share an identifier — is the type's invariant. Unlike a
/// networked backend it cannot fail for external reasons, so its
/// operations strengthen the trait's contracts and owe success.
pub struct MemoryRepository {
    users: Vec<User>,
}

impl MemoryRepository {
    /// An empty store.
    pub fn new() -> (r: Self)
        ensures
            unique_ids(r.rows()),
            r.rows() == Seq::<UserView>::empty(),
    {
        let r = MemoryRepository { users: Vec::new() };
        proof {
            assert(r.rows() =~= Seq::<UserView>::empty());
        }
        r
    }
}

impl RepositoryTrait for MemoryRepository {
    closed spec fn rows(&self) -> Seq<UserView> {
        views_of(self.users@)
    }

    open spec fn infallible(&self) -> bool {
        true
    }

    fn create(&mut self, item: User) -> (r: Result<User, RepoError>)
        ensures
            !has_id(old(self).rows(), item@.id) ==> (r matches Ok(c) && c == item),
            has_id(old(self).rows(), item@.id) ==> (r matches Err(e) && e
                == RepoError::Duplicate),
    {
        let n = self.users.len();
        let mut i: usize = 0;
        while i < n
            invariant
                *self == *old(self),
                unique_ids(old(self).rows()),
                n == self.users.len(),
                i <= n,
                forall|j: int| 0 <= j < i ==> (#[trigger] self.rows()[j]).id != item@.id,
            decreases n - i,
        {
            if self.users[i].id == item.id {
                proof {
                    assert(self.rows()[i as int].id == item@.id);
                }
                return Err(RepoError::Duplicate);
            }
            i += 1;
        }
        proof {
            if has_id(self.rows(), item@.id) {
                let j = choose|j: int| 0 <= j < self.rows().len() && self.rows()[j].id
                    == item@.id;
                assert(self.rows()[j].id != item@.id);
            }
            lemma_round_trip(self.rows(), item@);
        }
        let echo = item.clone();
        let ghost prev = self.users@;
        let ghost itemv = item@;
        self.users.push(item);
        proof {
            assert(self.rows() =~= views_of(prev).push(itemv));
        }
        Ok(echo)
    }

    fn get_by_id(&self, id: String) -> (r: Result<User, RepoError>)
        ensures
            has_id(self.rows(), id@) ==> r is Ok,
            !has_id(self.rows(), id@) ==> (r matches Err(e) && e == RepoError::NotFound),
    {
        let n = self.users.len();
        let mut i: usize = 0;
        while i < n
            invariant
                n == self.users.len(),
                i <= n,
                forall|j: int| 0 <= j < i ==> (#[trigger] self.rows()[j]).id != id@,
            decreases n - i,
        {
            if self.users[i].id == id {
                let found = self.users[i].clone();
                proof {
                    assert(self.rows()[i as int] == found@);
                    assert(self.rows().contains(found@));
                }
                return Ok(found);
            }
            i += 1;
        }
        proof {
            if has_id(self.rows(), id@) {
                let j = choose|j: int| 0 <= j < self.rows().len() && self.rows()[j].id == id@;
                assert(self.rows()[j].id != id@);
            }
        }
        Err(RepoError::NotFound)
    }

    fn get_all(&self) -> (r: Result<Vec<User>, RepoError>)
        ensures
            r is Ok,
    {
        let mut out: Vec<User> = Vec::new();
        let n = self.users.len();
        let mut i: usize = 0;
        while i < n
            invariant
                n == self.users.len(),
                i <= n,
                out@.len() == i,
                forall|j: int| 0 <= j < i ==> out@[j] == self.users@[j],
            decreases n - i,
        {
            let row = self.users[i].clone();
            out.push(row);
            i += 1;
        }
        proof {
            assert(views_of(out@) =~= self.rows());
        }
        Ok(out)
    }

    fn update(&mut self, item: User) -> (r: Result<(), RepoError>)
        ensures
            r is Ok,
            !has_id(old(self).rows(), item@.id) ==> final(self).rows() == old(self).rows(),
    {
        let n = self.users.len();
        let mut i: usize = 0;
        while i < n
            invariant
                *self == *old(self),
                unique_ids(old(self).rows()),
                n == self.users.len(),
                i <= n,
                forall|j: int| 0 <= j < i ==> (#[trigger] self.rows()[j]).id != item@.id,
            decreases n - i,
        {
            if self.users[i].id == item.id {
                let ghost prev = self.rows();
                let ghost itemv = item@;
                proof {
                    lemma_update_confirms(prev, itemv);
                }
                self.users[i] = item;
                proof {
                    assert forall|j: int| 0 <= j < prev.len() implies self.rows()[j]
                        == update_rows(prev, itemv)[j] by {
                        if j != i {
                            assert(prev[j].id != prev[i as int].id);
                        }
                    }
                    assert(self.rows() =~= update_rows(prev, itemv));
                }
                return Ok(());
            }
            i += 1;
        }
        proof {
            if has_id(self.rows(), item@.id) {
                let j = choose|j: int| 0 <= j < self.rows().len() && self.rows()[j].id
                    == item@.id;
                assert(self.rows()[j].id != item@.id);
            }
            lemma_update_confirms(self.rows(), item@);
        }
        Ok(())
    }

    fn delete(&mut self, id: String) -> (r: Result<(), RepoError>)
        ensures
            r is Ok,
    {
        let mut kept: Vec<User> = Vec::new();
        let n = self.users.len();
        let mut i: usize = 0;
        while i < n
            invariant
                *self == *old(self),
                unique_ids(old(self).rows()),
                n == self.users.len(),
                i <= n,
                views_of(kept@) == remove_id(self.rows().take(i as int), id@),
            decreases n - i,
        {
            let ghost taken = self.rows().take(i as int);
            let ghost next = self.rows().take(i as int + 1);
            proof {
                assert(next.drop_last() =~= taken);
                assert(next.last() == self.rows()[i as int]);
            }
            if self.users[i].id == id {
                proof {
                    assert(self.rows()[i as int].id == id@);
                    assert(views_of(kept@) == remove_id(next, id@));
                }
            } else {
                let row = self.users[i].clone();
                let ghost keptv = views_of(kept@);
                kept.push(row);
                proof {
                    assert(self.rows()[i as int].id != id@);
                    assert(views_of(kept@) =~= keptv.push(self.rows()[i as int]));
                    assert(views_of(kept@) == remove_id(next, id@));
                }
            }
            i += 1;
        }
        proof {
            assert(self.rows().take(n as int) =~= self.rows());
            lemma_delete_removes(self.rows(), id@);
        }
        self.users = kept;
        Ok(())
    }
}

} // verus!
