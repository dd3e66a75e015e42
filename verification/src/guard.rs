//! Who may give which command.

use vstd::prelude::*;
use crate::address::Address;
use crate::errors::EscrowError;
use crate::instructions::EscrowInstruction;
use crate::state::Escrow;

verus! {

/// Whether `principal` may give the command: it must have signed, and
/// hold the part that the command asks for in `record`, the record that
/// the command is given to (none yet when an escrow is set up).
///
/// Whoever signs may set up an escrow and becomes its first party. A
/// deposit is open to the first party, to the second party, and to
/// anybody while the second party's place is free. A swap and a
/// cancellation are open to the two parties alone.
pub open spec fn authorized(
    instruction: EscrowInstruction,
    principal: Address,
    signed: bool,
    record: Option<Escrow>,
) -> bool {
    signed && match instruction {
        EscrowInstruction::InitEscrow { .. } => true,
        EscrowInstruction::Deposit { .. } => record is Some
            && record->Some_0.deposit_role(principal) is Some,
        EscrowInstruction::CompleteSwap => record is Some && record->Some_0.is_party(principal),
        EscrowInstruction::Cancel => record is Some && record->Some_0.is_party(principal),
    }
}

/// Decides whether `principal` may give the command. A principal that
/// may not is refused with `UnauthorizedCancel`.
pub fn authorize(
    instruction: &EscrowInstruction,
    principal: &Address,
    signed: bool,
    record: Option<&Escrow>,
) -> (r: Result<(), EscrowError>)
    ensures
        r is Ok <==> authorized(
            *instruction,
            *principal,
            signed,
            match record {
                Some(found) => Some(*found),
                None => None,
            },
        ),
        r is Err ==> r == Err::<(), EscrowError>(EscrowError::UnauthorizedCancel),
{
    if !signed {
        return Err(EscrowError::UnauthorizedCancel);
    }
    let allowed = match instruction {
        EscrowInstruction::InitEscrow { .. } => true,
        EscrowInstruction::Deposit { .. } => match record {
            Some(found) => found.role_of(principal).is_some(),
            None => false,
        },
        EscrowInstruction::CompleteSwap => match record {
            Some(found) => found.has_party(principal),
            None => false,
        },
        EscrowInstruction::Cancel => match record {
            Some(found) => found.has_party(principal),
            None => false,
        },
    };
    if allowed {
        Ok(())
    } else {
        Err(EscrowError::UnauthorizedCancel)
    }
}

} // verus!
