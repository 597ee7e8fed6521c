use vstd::prelude::*;

verus! {

/// Why an escrow operation was refused. Every precondition violation aborts
/// the whole operation with one of these kinds and no partial mutation.
#[derive(Clone, Copy, Debug, PartialEq, Eq, Structural)]
pub enum AuctionError {
    /// The inbound operation bytes did not decode into a known operation.
    InvalidInstruction,
    /// A required party did not prove control (missing signature).
    AuthorizationFailure,
    /// An account expected to belong to the token ledger's program does not.
    WrongOwnerFailure,
    /// A newly created record account cannot sustain its permanent storage cost.
    StorageExemptionFailure,
    /// Initiate was called on an already-open record.
    DoubleInitFailure,
    /// Settle-Leg's caller-declared expectation undershoots the escrowed amount.
    AmountBelowAskFailure,
    /// Finalize-And-Close's caller-declared expectation does not exactly equal
    /// the escrowed amount.
    AmountMismatchFailure,
    /// A cross-check between the record's stored identities and the supplied
    /// accounts failed; signals tampering or caller error.
    IdentityMismatchFailure,
    /// The checked addition during storage-deposit reclamation would overflow.
    ArithmeticOverflowFailure,
    /// The auction record bytes are malformed (wrong length or flag byte).
    RecordDecodeFailure,
    /// The auction record decoded but is not open, so the operation has no
    /// escrow to act on.
    RecordNotOpenFailure,
    /// The custody account's bytes did not parse as a token-ledger account.
    CustodyDecodeFailure,
    /// No viable derived authority exists for this program identity.
    AuthorityDerivationFailure,
}

} // verus!
