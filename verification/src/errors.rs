use vstd::prelude::*;

verus! {

/// Everything an engine operation can fail with.  Every error is terminal for
/// the operation that raised it: the state is left exactly as it was.
#[derive(Clone, Copy, PartialEq, Eq, Structural, Debug)]
pub enum Error {
    /// Bad constructor arguments: client and artisan coincide, or the amount
    /// is not positive, or a counter would leave its range.
    ValidationError,
    /// No escrow exists under the given id.
    NotFoundError,
    /// The operation is illegal for the escrow's current status.
    StateError,
    /// The operation is illegal for the current time relative to the
    /// escrow's deadline.
    DeadlineError,
    /// The caller is not the principal the operation requires.
    AuthorizationError,
    /// The value-transfer ledger refused to move the amount.
    TransferError,
}

} // verus!
