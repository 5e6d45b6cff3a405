//! The rejection kinds an operation can report.

use vstd::prelude::*;

verus! {

/// Why an operation was rejected. Every rejection is terminal and leaves
/// all records and balances unchanged.
#[derive(Clone, Copy, Debug, PartialEq, Eq, Structural)]
pub enum SurveyErrors {
    /// The caller (or a presented controller address) is not the survey's
    /// controller.
    WrongController,
    /// The presented owner address is not the survey's owner.
    NotTheOwner,
    /// A funding amount below the survey's full payout obligation.
    InsufficientFunds,
    /// The survey has already paid out to as many participants as it allows.
    ParticipantsLimitReached,
    /// A participation receipt for this participant already exists.
    DuplicateParticipant,
    /// A presented address does not match the one re-derived from its
    /// claimed seed tuple.
    AddressMismatch,
    /// The hosting ledger could not apply a currency move (payer balance
    /// too small, or a balance would overflow); the whole operation aborts.
    TransferFailed,
}

} // verus!
