use vstd::prelude::*;

verus! {

/// Every way a call into the connector can fail.
#[derive(Debug, Clone, Copy, PartialEq, Eq, Structural)]
pub enum ConnectorError {
    /// An address text is not hex, or does not decode to 20 bytes.
    InvalidAddressFormat,
    /// The log entry is not a well-formed RLP list of address, topics and data.
    MalformedLogEncoding,
    /// Topics or payload do not fit the declared event shape.
    EventShapeMismatch,
    /// ABI decoding needs a 64-bit `usize`: on a narrower one its offset
    /// arithmetic could overflow.
    UnsupportedTarget,
    /// The event was not emitted by the configured custodian contract.
    CustodianMismatch,
    /// A finishing call came from someone other than the connector itself.
    UnauthorizedCallback,
    /// A withdrawal came from an account that is not a sub-account of the connector.
    UnauthorizedWithdrawal,
    /// The verifier rejected the proof.
    VerificationFailed,
    /// The proof was already used for a credit.
    ProofAlreadyUsed,
    /// The attached deposit does not pay for the storage the proof takes.
    InsufficientDeposit,
    /// The connector was initialized before.
    AlreadyInitialized,
    /// The entry point belongs to a path that is switched off.
    PathDisabled,
    /// A callback did not receive exactly one result.
    UnexpectedCallbackShape,
    /// The call this callback waited on did not succeed.
    PromiseFailed,
}

} // verus!
