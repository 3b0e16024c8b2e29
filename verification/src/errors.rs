use vstd::prelude::*;

verus! {

/// The error classification for every failing operation. Errors are surfaced
/// directly to the caller; no operation has a partial-failure state.
#[derive(Clone, Copy, Debug, PartialEq, Eq, Structural)]
pub enum MyError {
    /// The name is empty or longer than 10 bytes.
    InvalidNameLength,
    /// The sender's balance is smaller than the transfer amount.
    NotEnoughPoints,
    /// Crediting the receiver would exceed the maximum representable balance.
    OverflowError,
    /// The authorizing principal is not the sender's owner.
    UnauthorizedTransfer,
    /// The authorizing principal is not the record's owner.
    UnauthorizedRemoval,
}

} // verus!
