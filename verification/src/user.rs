use vstd::prelude::*;
use crate::errors::MyError;

verus! {

/// An opaque principal identifier, as the host environment verifies and
/// hands it in. The library only ever compares keys for equality.
#[derive(Clone, Copy, Debug, Eq)]
pub struct Pubkey {
    pub bytes: [u8; 32],
}

impl PartialEq for Pubkey {
    fn eq(&self, other: &Pubkey) -> (r: bool) {
        let mut i: usize = 0;
        while i < 32
            invariant
                i <= 32,
                forall|j: int| 0 <= j < i ==> self.bytes[j] == other.bytes[j],
            decreases 32 - i,
        {
            if self.bytes[i] != other.bytes[i] {
                return false;
            }
            i += 1;
        }
        proof {
            assert(self.bytes =~= other.bytes);
        }
        true
    }
}

impl vstd::std_specs::cmp::PartialEqSpecImpl for Pubkey {
    open spec fn obeys_eq_spec() -> bool {
        true
    }

    open spec fn eq_spec(&self, other: &Pubkey) -> bool {
        self.bytes == other.bytes
    }
}

/// A registered identity: its unique id, the owning principal, a display
/// name held as raw bytes, and a mutable point balance.
#[derive(Clone, Debug)]
pub struct User {
    pub id: u64,
    pub owner: Pubkey,
    pub name: Vec<u8>,
    pub points: u16,
}

/// A name is acceptable when it holds between 1 and 10 raw bytes.
pub open spec fn valid_name(name: Seq<u8>) -> bool {
    1 <= name.len() && name.len() <= 10
}

/// The balance every freshly created user starts with.
pub open spec fn spec_starting_points() -> u16 {
    1000
}

impl User {
    /// Builds the record for a freshly minted id. Fails if and only if the
    /// name is empty or longer than 10 bytes; on success the balance starts
    /// at 1000 points.
    pub fn create(name: Vec<u8>, owner: Pubkey, generated_id: u64) -> (r: Result<User, MyError>)
        ensures
            valid_name(name@) ==> (r matches Ok(u)
                && u.id == generated_id
                && u.owner == owner
                && u.name == name
                && u.points == spec_starting_points()),
            !valid_name(name@) ==> r == Err::<User, MyError>(MyError::InvalidNameLength),
    {
        if name.len() == 0 || name.len() > 10 {
            return Err(MyError::InvalidNameLength);
        }
        Ok(User { id: generated_id, owner, name, points: 1000 })
    }
}

} // verus!
