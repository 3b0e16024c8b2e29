use vstd::prelude::*;
use crate::errors::MyError;
use crate::user::{User, Pubkey};

verus! {

/// Both records hold exactly the balances they held before the call.
pub open spec fn balances_unchanged(s_old: User, s_new: User, r_old: User, r_new: User) -> bool {
    s_new.points == s_old.points && r_new.points == r_old.points
}

/// Moves `amount` points from `sender` to `receiver`, on behalf of
/// `authorizing_owner`. The checks run in order: the authorizing principal
/// must own the sender; the sender must hold at least `amount`; crediting
/// the receiver must not overflow the balance type. Any failure leaves both
/// records exactly as they were; on success the sender is debited, the
/// receiver credited, and the sum of the two balances is unchanged.
pub fn transfer_points(
    sender: &mut User,
    receiver: &mut User,
    amount: u16,
    authorizing_owner: Pubkey,
) -> (r: Result<(), MyError>)
    ensures
        authorizing_owner != old(sender).owner
            ==> r == Err::<(), MyError>(MyError::UnauthorizedTransfer)
                && *final(sender) == *old(sender) && *final(receiver) == *old(receiver),
        authorizing_owner == old(sender).owner && old(sender).points < amount
            ==> r == Err::<(), MyError>(MyError::NotEnoughPoints)
                && *final(sender) == *old(sender) && *final(receiver) == *old(receiver),
        authorizing_owner == old(sender).owner && old(sender).points >= amount
            && old(receiver).points + amount > u16::MAX
            ==> r == Err::<(), MyError>(MyError::OverflowError)
                && *final(sender) == *old(sender) && *final(receiver) == *old(receiver),
        authorizing_owner == old(sender).owner && old(sender).points >= amount
            && old(receiver).points + amount <= u16::MAX
            ==> r is Ok
                && final(sender).points == old(sender).points - amount
                && final(receiver).points == old(receiver).points + amount,
        r is Ok
            ==> final(sender).points + final(receiver).points
                == old(sender).points + old(receiver).points,
        r is Err ==> balances_unchanged(*old(sender), *final(sender), *old(receiver), *final(receiver)),
        final(sender).id == old(sender).id && final(sender).owner == old(sender).owner
            && final(sender).name == old(sender).name,
        final(receiver).id == old(receiver).id && final(receiver).owner == old(receiver).owner
            && final(receiver).name == old(receiver).name,
{
    if authorizing_owner != sender.owner {
        return Err(MyError::UnauthorizedTransfer);
    }
    if sender.points < amount {
        return Err(MyError::NotEnoughPoints);
    }
    let new_receiver_points = match receiver.points.checked_add(amount) {
        Some(v) => v,
        None => {
            return Err(MyError::OverflowError);
        },
    };
    sender.points = sender.points - amount;
    receiver.points = new_receiver_points;
    Ok(())
}

} // verus!
