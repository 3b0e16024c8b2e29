use vstd::prelude::*;
use crate::errors::MyError;
use crate::user::{User, Pubkey, valid_name, spec_starting_points};

verus! {

/// The keyed collection of active user records. The host environment hands
/// every operation an exclusively owned reference to it; the library keeps
/// the invariant that no two records share an id.
pub struct UserStore {
    pub users: Vec<User>,
}

impl UserStore {
    /// Well-formedness: the id is a key, so no two records share one.
    pub open spec fn wf(self) -> bool {
        forall|i: int, j: int|
            0 <= i < j < self.users@.len() ==> self.users@[i].id != self.users@[j].id
    }

    /// Whether some record carries the given id.
    pub open spec fn spec_contains(self, id: u64) -> bool {
        exists|i: int| 0 <= i < self.users@.len() && self.users@[i].id == id
    }

    /// The position of the record carrying the given id (meaningful only
    /// when one exists; unique under `wf`).
    pub open spec fn spec_index_of(self, id: u64) -> int {
        choose|i: int| 0 <= i < self.users@.len() && self.users@[i].id == id
    }

    /// The record carrying the given id (meaningful only when one exists).
    pub open spec fn spec_get(self, id: u64) -> User {
        self.users@[self.spec_index_of(id)]
    }

    /// An empty store.
    pub fn new() -> (s: UserStore)
        ensures
            s.wf(),
            s.users@.len() == 0,
    {
        UserStore { users: Vec::new() }
    }

    /// The position of the record with the given id, if one exists.
    pub fn index_of(&self, id: u64) -> (r: Option<usize>)
        requires
            self.wf(),
        ensures
            match r {
                Some(i) => self.spec_contains(id) && i == self.spec_index_of(id)
                    && i < self.users@.len() && self.users@[i as int].id == id,
                None => !self.spec_contains(id),
            },
    {
        let n = self.users.len();
        let mut i: usize = 0;
        while i < n
            invariant
                n == self.users@.len(),
                i <= n,
                self.wf(),
                forall|j: int| 0 <= j < i ==> self.users@[j].id != id,
            decreases n - i,
        {
            if self.users[i].id == id {
                proof {
                    let w = self.spec_index_of(id);
                    assert(0 <= w < self.users@.len() && self.users@[w].id == id);
                }
                return Some(i);
            }
            i += 1;
        }
        None
    }

    /// The record with the given id, or `None` where no record backs the id.
    pub fn lookup(&self, id: u64) -> (r: Option<&User>)
        requires
            self.wf(),
        ensures
            match r {
                Some(u) => self.spec_contains(id) && *u == self.spec_get(id),
                None => !self.spec_contains(id),
            },
    {
        match self.index_of(id) {
            Some(i) => Some(&self.users[i]),
            None => None,
        }
    }

    /// Allocates the record for a freshly minted id. Fails if and only if
    /// the name is empty or longer than 10 bytes, leaving the store
    /// untouched; on success exactly one record is appended, keyed by
    /// `generated_id`, owned by `owner`, with 1000 starting points. The
    /// environment's keyed allocation guarantees the id is not yet taken;
    /// the store does not re-check that.
    pub fn create(&mut self, name: Vec<u8>, owner: Pubkey, generated_id: u64) -> (r: Result<
        (),
        MyError,
    >)
        requires
            old(self).wf(),
            !old(self).spec_contains(generated_id),
        ensures
            final(self).wf(),
            valid_name(name@) ==> (r is Ok && final(self).users@ == old(self).users@.push(
                (User { id: generated_id, owner, name, points: spec_starting_points() }),
            )),
            valid_name(name@) ==> final(self).spec_contains(generated_id)
                && final(self).spec_get(generated_id)
                == (User { id: generated_id, owner, name, points: spec_starting_points() }),
            !valid_name(name@) ==> (r == Err::<(), MyError>(MyError::InvalidNameLength)
                && *final(self) == *old(self)),
    {
        match User::create(name, owner, generated_id) {
            Ok(u) => {
                self.users.push(u);
                proof {
                    let w = self.spec_index_of(generated_id);
                    let n = old(self).users@.len() as int;
                    assert(self.users@[n].id == generated_id);
                    assert(0 <= w < self.users@.len() && self.users@[w].id == generated_id);
                    assert(w == n);
                }
                Ok(())
            },
            Err(e) => Err(e),
        }
    }
}

} // verus!
