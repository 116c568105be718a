use vstd::prelude::*;

verus! {

/// Every way an operation of this crate can fail.
///
/// All of these abort the enclosing atomic operation; none is recovered
/// locally.
#[derive(Clone, Copy, Debug, PartialEq, Eq, Structural)]
pub enum TransferError {
    /// The source account's data does not parse as the expected
    /// base-plus-extensions layout, or the transfer-hook extension is
    /// absent from it.
    DecodeError,
    /// The transfer-in-progress flag is false: the hook was invoked
    /// outside a genuine transfer.
    IsNotCurrentlyTransferring,
    /// The destination account is not in the whitelist.
    NotWhitelisted,
    /// A whitelist mutation was attempted by an identity other than the
    /// stored authority.
    AuthorizationError,
    /// Storage could not be laid out as required: a buffer or a seed
    /// configuration does not have the exact size the operation needs.
    AllocationError,
}

} // verus!
