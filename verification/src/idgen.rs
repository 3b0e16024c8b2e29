use vstd::prelude::*;

verus! {

/// Singleton generator state from which user identifiers are minted: the
/// most recently observed timestamp, and a counter that orders the ids
/// minted within one timestamp.
#[derive(Clone, Copy, Debug, PartialEq, Eq, Structural)]
pub struct IdGenerator {
    pub last_timestamp: u64,
    pub counter: u32,
}

/// The generator state after observing `current_time`: a strictly newer
/// timestamp is stored and resets the counter; otherwise the counter
/// increments, wrapping at its maximum.
pub open spec fn spec_step(g: IdGenerator, current_time: u64) -> IdGenerator {
    if current_time > g.last_timestamp {
        IdGenerator { last_timestamp: current_time, counter: 0 }
    } else if g.counter == u32::MAX {
        IdGenerator { last_timestamp: g.last_timestamp, counter: 0 }
    } else {
        IdGenerator { last_timestamp: g.last_timestamp, counter: (g.counter + 1) as u32 }
    }
}

/// The identifier read off a generator state: the stored timestamp in the
/// high 32 bits, the counter in the low 32 bits.
pub open spec fn spec_id(g: IdGenerator) -> u64 {
    (g.last_timestamp << 32) | (g.counter as u64)
}

/// Resets the generator to its starting state. To be called exactly once,
/// before any id is minted; calling it again would restart the sequence and
/// risk id collisions, a responsibility left with the caller.
pub fn initialize_id_generator() -> (g: IdGenerator)
    ensures
        g.last_timestamp == 0,
        g.counter == 0,
{
    IdGenerator { last_timestamp: 0, counter: 0 }
}

impl IdGenerator {
    /// Mints the next identifier for the given timestamp: steps the
    /// generator state and returns the id read off the new state.
    pub fn next_id(&mut self, current_time: u64) -> (id: u64)
        ensures
            *final(self) == spec_step(*old(self), current_time),
            id == spec_id(*final(self)),
    {
        if current_time > self.last_timestamp {
            self.last_timestamp = current_time;
            self.counter = 0;
        } else if self.counter == u32::MAX {
            self.counter = 0;
        } else {
            self.counter = self.counter + 1;
        }
        (self.last_timestamp << 32) | (self.counter as u64)
    }

    /// The id that the next call of `next_id` with this timestamp would
    /// mint, without stepping the generator. Lets an unverified caller test
    /// in advance that the prospective id does not collide with a record it
    /// already holds.
    pub fn peek_next_id(&self, current_time: u64) -> (id: u64)
        ensures
            id == spec_id(spec_step(*self, current_time)),
    {
        let mut g = *self;
        g.next_id(current_time)
    }
}

/// One step of the guarantee that ids grow: feeding the generator a
/// timestamp no older than the stored one mints an id strictly greater than
/// the id read off the old state. Requires the timestamp to fit in 32 bits
/// (a larger one is truncated by the shift) and, when the timestamp ties
/// with the stored one, a counter below its maximum (it would wrap).
pub proof fn lemma_next_id_strictly_increasing(g: IdGenerator, current_time: u64)
    requires
        g.last_timestamp <= current_time,
        current_time < 0x1_0000_0000,
        current_time == g.last_timestamp ==> g.counter < u32::MAX,
    ensures
        spec_id(spec_step(g, current_time)) > spec_id(g),
{
    let t = g.last_timestamp;
    let c = g.counter as u64;
    let ct = current_time;
    if ct > t {
        assert((ct << 32) | 0u64 > (t << 32) | c) by (bit_vector)
            requires
                t < ct,
                ct < 0x1_0000_0000u64,
                c < 0x1_0000_0000u64,
        ;
    } else {
        assert((t << 32) | ((c + 1) as u64) > (t << 32) | c) by (bit_vector)
            requires
                c < 0xFFFF_FFFFu64,
        ;
    }
}

/// The ids a run of `next_id` calls mints, one per timestamp in `ts`.
pub open spec fn spec_run_ids(g: IdGenerator, ts: Seq<u64>) -> Seq<u64>
    decreases ts.len(),
{
    if ts.len() == 0 {
        Seq::empty()
    } else {
        seq![spec_id(spec_step(g, ts[0]))] + spec_run_ids(spec_step(g, ts[0]), ts.drop_first())
    }
}

/// For every run of `next_id` calls with non-decreasing timestamps, the
/// minted ids are strictly increasing. Requires each timestamp to fit in
/// 32 bits (a larger one is truncated by the shift) and room on the
/// counter for the whole run (a tied timestamp at a full counter would
/// wrap); a run of at most `u32::MAX` calls from a freshly initialized
/// generator meets the counter condition.
pub proof fn lemma_ids_strictly_increasing(g: IdGenerator, ts: Seq<u64>)
    requires
        forall|i: int| 0 <= i < ts.len() ==> ts[i] < 0x1_0000_0000,
        forall|i: int, j: int| 0 <= i <= j < ts.len() ==> ts[i] <= ts[j],
        ts.len() > 0 ==> g.last_timestamp <= ts[0],
        g.counter + ts.len() <= u32::MAX,
    ensures
        spec_run_ids(g, ts).len() == ts.len(),
        forall|i: int, j: int|
            0 <= i < j < ts.len() ==> spec_run_ids(g, ts)[i] < spec_run_ids(g, ts)[j],
        ts.len() > 0 ==> spec_run_ids(g, ts)[0] > spec_id(g),
    decreases ts.len(),
{
    if ts.len() > 0 {
        let g1 = spec_step(g, ts[0]);
        let rest = ts.drop_first();
        let ids = spec_run_ids(g, ts);
        let rest_ids = spec_run_ids(g1, rest);
        lemma_next_id_strictly_increasing(g, ts[0]);
        assert(forall|i: int| 0 <= i < rest.len() ==> rest[i] == ts[i + 1]);
        assert(g1.last_timestamp <= g.last_timestamp || g1.last_timestamp == ts[0]);
        lemma_ids_strictly_increasing(g1, rest);
        assert(ids[0] == spec_id(g1));
        assert(forall|k: int| 1 <= k < ts.len() ==> ids[k] == rest_ids[k - 1]);
        assert forall|i: int, j: int| 0 <= i < j < ts.len() implies ids[i] < ids[j] by {
            if i == 0 {
                assert(ids[0] < rest_ids[0]);
                if j > 1 {
                    assert(rest_ids[0] < rest_ids[j - 1]);
                }
            }
        }
    }
}

} // verus!
