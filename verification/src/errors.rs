//! The ways in which a command can be refused.

use vstd::prelude::*;

verus! {

/// Why a command was refused. A refused command changes nothing.
#[derive(Clone, Copy, Debug, PartialEq, Eq, Structural)]
pub enum EscrowError {
    /// The side that tries to deposit has already done so.
    AlreadyDeposited,
    /// The escrow is not in the state that the command needs: it is no longer
    /// active, or a swap was asked for before both sides had deposited.
    EscrowNotReady,
    /// The amount is not the one the escrow was set up with, or is zero.
    InvalidAmount,
    /// The caller has not signed, or is not a party that may give this
    /// command; also a cancellation asked for once both sides have deposited.
    UnauthorizedCancel,
    /// The command's bytes or its list of accounts do not have the shape that
    /// the command needs.
    MalformedInstruction,
    /// A movement of tokens into or out of custody was rejected.
    TransferFailed,
    /// The record's account does not hold the balance that exempts it from rent.
    AccountNotRentExempt,
    /// The record's account does not belong to this program.
    IncorrectProgramId,
    /// The record's account does not hold a record, or is too small for one.
    InvalidAccountData,
    /// The record's account already holds data.
    AlreadyInitialized,
    /// No custodial authority can be derived for the record.
    InvalidSeeds,
    /// The account given as the rent table is not one.
    InvalidArgument,
}

impl EscrowError {
    /// The number under which each refusal is reported.
    pub open spec fn code_spec(self) -> u32 {
        match self {
            EscrowError::AlreadyDeposited => 1000,
            EscrowError::EscrowNotReady => 1001,
            EscrowError::InvalidAmount => 1002,
            EscrowError::UnauthorizedCancel => 1003,
            EscrowError::MalformedInstruction => 1004,
            EscrowError::TransferFailed => 1005,
            EscrowError::AccountNotRentExempt => 1006,
            EscrowError::IncorrectProgramId => 1007,
            EscrowError::InvalidAccountData => 1008,
            EscrowError::AlreadyInitialized => 1009,
            EscrowError::InvalidSeeds => 1010,
            EscrowError::InvalidArgument => 1011,
        }
    }

    /// The number under which this refusal is reported.
    pub fn code(&self) -> (c: u32)
        ensures
            c == self.code_spec(),
            1000 <= c <= 1011,
    {
        match self {
            EscrowError::AlreadyDeposited => 1000,
            EscrowError::EscrowNotReady => 1001,
            EscrowError::InvalidAmount => 1002,
            EscrowError::UnauthorizedCancel => 1003,
            EscrowError::MalformedInstruction => 1004,
            EscrowError::TransferFailed => 1005,
            EscrowError::AccountNotRentExempt => 1006,
            EscrowError::IncorrectProgramId => 1007,
            EscrowError::InvalidAccountData => 1008,
            EscrowError::AlreadyInitialized => 1009,
            EscrowError::InvalidSeeds => 1010,
            EscrowError::InvalidArgument => 1011,
        }
    }
}

/// Different refusals are reported under different numbers.
pub proof fn lemma_codes_distinct(a: EscrowError, b: EscrowError)
    ensures
        a.code_spec() == b.code_spec() <==> a == b,
{
}

} // verus!
