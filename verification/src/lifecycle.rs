use vstd::prelude::*;
use vstd::pervasive::unreached;
use crate::errors::MyError;
use crate::idgen::{IdGenerator, spec_step, spec_id};
use crate::store::UserStore;
use crate::user::{User, Pubkey, valid_name, spec_starting_points};

verus! {

/// Registers a new user: checks the name, mints an id from the generator
/// for the supplied timestamp, and allocates the record. An empty or
/// over-long name fails with `InvalidNameLength` before the generator is
/// consulted, so neither the generator nor the store moves; on success the
/// generator has stepped once and exactly the new record was appended,
/// holding 1000 starting points. The environment's keyed allocation
/// guarantees the minted id is not yet taken; the store does not re-check.
pub fn initialize(
    id_generator: &mut IdGenerator,
    store: &mut UserStore,
    name: Vec<u8>,
    owner: Pubkey,
    current_time: u64,
) -> (r: Result<u64, MyError>)
    requires
        old(store).wf(),
        !old(store).spec_contains(spec_id(spec_step(*old(id_generator), current_time))),
    ensures
        final(store).wf(),
        !valid_name(name@)
            ==> r == Err::<u64, MyError>(MyError::InvalidNameLength)
                && *final(id_generator) == *old(id_generator) && *final(store) == *old(store),
        valid_name(name@)
            ==> *final(id_generator) == spec_step(*old(id_generator), current_time)
                && r == Ok::<u64, MyError>(spec_id(*final(id_generator)))
                && final(store).users@ == old(store).users@.push(
                    (User {
                        id: spec_id(*final(id_generator)),
                        owner,
                        name,
                        points: spec_starting_points(),
                    }),
                ),
{
    if name.len() == 0 || name.len() > 10 {
        return Err(MyError::InvalidNameLength);
    }
    let new_id = id_generator.next_id(current_time);
    match store.create(name, owner, new_id) {
        Ok(()) => Ok(new_id),
        Err(_) => unreached(),
    }
}

/// Tears a user record down on behalf of `authorizing_owner`. Fails with
/// `UnauthorizedRemoval`, touching nothing, unless the authorizing
/// principal owns the record; on success exactly that record leaves the
/// store, permanently freeing its id. The caller supplies an id that a
/// record backs; a dangling id is the environment's implicit not-found
/// case and never reaches this call.
pub fn remove_user(store: &mut UserStore, id: u64, authorizing_owner: Pubkey) -> (r: Result<
    (),
    MyError,
>)
    requires
        old(store).wf(),
        old(store).spec_contains(id),
    ensures
        final(store).wf(),
        authorizing_owner != old(store).spec_get(id).owner
            ==> r == Err::<(), MyError>(MyError::UnauthorizedRemoval) && *final(store) == *old(store),
        authorizing_owner == old(store).spec_get(id).owner
            ==> r is Ok
                && final(store).users@ == old(store).users@.remove(old(store).spec_index_of(id))
                && !final(store).spec_contains(id),
{
    let idx = match store.index_of(id) {
        Some(i) => i,
        None => unreached(),
    };
    if authorizing_owner != store.users[idx].owner {
        return Err(MyError::UnauthorizedRemoval);
    }
    store.users.remove(idx);
    proof {
        let s_old = old(store).users@;
        let w = old(store).spec_index_of(id);
        assert forall|k: int| 0 <= k < store.users@.len() implies #[trigger] store.users@[k] == (
        if k < w {
            s_old[k]
        } else {
            s_old[k + 1]
        }) by {}
        assert(store.wf());
        assert(!store.spec_contains(id));
    }
    Ok(())
}

/// Every record in the store carries an id minted at or before the
/// generator's current position. This holds of an empty store beside a
/// freshly initialized generator, and `initialize` preserves it (see
/// `lemma_freshness_preserved`).
pub open spec fn ids_minted_so_far(store: UserStore, g: IdGenerator) -> bool {
    forall|i: int| 0 <= i < store.users@.len() ==> store.users@[i].id <= spec_id(g)
}

/// The generator never rewinds, so an id is never reused: where every
/// record was minted at or before the generator's current position, the id
/// minted next collides with no record. Lets a verified caller discharge
/// the keyed-allocation requirement of `initialize` for a store populated
/// only through it. The conditions on the timestamp and the counter are
/// those of `lemma_next_id_strictly_increasing`.
pub proof fn lemma_next_id_is_fresh(store: UserStore, g: IdGenerator, current_time: u64)
    requires
        ids_minted_so_far(store, g),
        g.last_timestamp <= current_time,
        current_time < 0x1_0000_0000,
        current_time == g.last_timestamp ==> g.counter < u32::MAX,
    ensures
        !store.spec_contains(spec_id(spec_step(g, current_time))),
{
    crate::idgen::lemma_next_id_strictly_increasing(g, current_time);
}

/// A successful registration keeps the freshness invariant: the appended
/// record carries exactly the id the stepped generator stands at, and every
/// older record stays at or below it.
pub proof fn lemma_freshness_preserved(
    old_store: UserStore,
    new_store: UserStore,
    g: IdGenerator,
    current_time: u64,
    user: User,
)
    requires
        ids_minted_so_far(old_store, g),
        g.last_timestamp <= current_time,
        current_time < 0x1_0000_0000,
        current_time == g.last_timestamp ==> g.counter < u32::MAX,
        user.id == spec_id(spec_step(g, current_time)),
        new_store.users@ == old_store.users@.push(user),
    ensures
        ids_minted_so_far(new_store, spec_step(g, current_time)),
{
    crate::idgen::lemma_next_id_strictly_increasing(g, current_time);
    assert forall|i: int| 0 <= i < new_store.users@.len() implies #[trigger] new_store.users@[i].id
        <= spec_id(spec_step(g, current_time)) by {
        if i < old_store.users@.len() {
            assert(new_store.users@[i] == old_store.users@[i]);
        } else {
            assert(new_store.users@[i] == user);
        }
    }
}

} // verus!
