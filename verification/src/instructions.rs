//! The four commands and their encoding as bytes.

use vstd::prelude::*;
use vstd::bytes::spec_u64_to_le_bytes;
use crate::address::{lemma_address_ext, Address};
use crate::codec::{lemma_u64_bytes, push_address, push_u64, read_address, read_u64};
use crate::errors::EscrowError;

verus! {

broadcast use vstd::array::group_array_axioms;

/// A command to the escrow.
#[derive(Clone, Copy, Debug, PartialEq, Eq)]
pub enum EscrowInstruction {
    /// Set up an escrow: `amount_a` of `token_a_mint` against `amount_b`
    /// of `token_b_mint`.
    InitEscrow { token_a_mint: Address, token_b_mint: Address, amount_a: u64, amount_b: u64 },
    /// Pay in `amount`.
    Deposit { amount: u64 },
    /// Exchange the two deposits.
    CompleteSwap,
    /// Call the swap off and hand the deposits back.
    Cancel,
}

impl EscrowInstruction {
    /// The byte that opens the encoding and tells the commands apart.
    pub open spec fn tag(self) -> u8 {
        match self {
            EscrowInstruction::InitEscrow { .. } => 0,
            EscrowInstruction::Deposit { .. } => 1,
            EscrowInstruction::CompleteSwap => 2,
            EscrowInstruction::Cancel => 3,
        }
    }

    /// The bytes that stand for the command: its tag, then its fields in
    /// order, identities as their 32 bytes and amounts as 8 bytes, least
    /// significant first.
    pub open spec fn encoding(self) -> Seq<u8> {
        match self {
            EscrowInstruction::InitEscrow { token_a_mint, token_b_mint, amount_a, amount_b } => {
                seq![0u8] + token_a_mint@ + token_b_mint@ + spec_u64_to_le_bytes(amount_a)
                    + spec_u64_to_le_bytes(amount_b)
            },
            EscrowInstruction::Deposit { amount } => seq![1u8] + spec_u64_to_le_bytes(amount),
            EscrowInstruction::CompleteSwap => seq![2u8],
            EscrowInstruction::Cancel => seq![3u8],
        }
    }

    /// The command that the bytes stand for, if they stand for one.
    pub open spec fn decode_spec(data: Seq<u8>) -> Option<EscrowInstruction> {
        if exists|i: EscrowInstruction| i.encoding() == data {
            Some(choose|i: EscrowInstruction| i.encoding() == data)
        } else {
            None
        }
    }

    /// The number of bytes in the encoding of a command with the given tag.
    pub open spec fn encoded_len(tag: u8) -> nat {
        if tag == 0 {
            81
        } else if tag == 1 {
            9
        } else {
            1
        }
    }

    /// Reads a command from the bytes that stand for it.
    ///
    /// Succeeds exactly on the encodings of commands: an unknown tag, a
    /// field cut short and bytes left over are all refused with
    /// `MalformedInstruction`.
    pub fn try_from_slice(data: &[u8]) -> (r: Result<EscrowInstruction, EscrowError>)
        ensures
            match r {
                Ok(instruction) => instruction.encoding() == data@,
                Err(e) => e == EscrowError::MalformedInstruction && forall|
                    i: EscrowInstruction,
                | i.encoding() != data@,
            },
            r is Ok <==> EscrowInstruction::decode_spec(data@) is Some,
            r is Ok ==> EscrowInstruction::decode_spec(data@) == Some(r->Ok_0),
    {
        let r = Self::parse(data);
        proof {
            if let Ok(instruction) = r {
                lemma_encoding_injective(
                    instruction,
                    choose|i: EscrowInstruction| i.encoding() == data@,
                );
            }
        }
        r
    }

    fn parse(data: &[u8]) -> (r: Result<EscrowInstruction, EscrowError>)
        ensures
            match r {
                Ok(instruction) => instruction.encoding() == data@,
                Err(e) => e == EscrowError::MalformedInstruction && forall|
                    i: EscrowInstruction,
                | i.encoding() != data@,
            },
    {
        proof {
            assert forall|i: EscrowInstruction| #[trigger]
                i.encoding().len() == Self::encoded_len(i.tag()) && i.encoding()[0] == i.tag()
                && i.tag() < 4 by {
                lemma_encoding_shape(i);
            }
        }
        if data.len() == 0 {
            return Err(EscrowError::MalformedInstruction);
        }
        let tag = data[0];
        if tag == 0 {
            if data.len() != 81 {
                return Err(EscrowError::MalformedInstruction);
            }
            let token_a_mint = read_address(data, 1);
            let token_b_mint = read_address(data, 33);
            let amount_a = read_u64(data, 65);
            let amount_b = read_u64(data, 73);
            let instruction = EscrowInstruction::InitEscrow {
                token_a_mint,
                token_b_mint,
                amount_a,
                amount_b,
            };
            assert(instruction.encoding() =~= data@);
            Ok(instruction)
        } else if tag == 1 {
            if data.len() != 9 {
                return Err(EscrowError::MalformedInstruction);
            }
            let amount = read_u64(data, 1);
            let instruction = EscrowInstruction::Deposit { amount };
            assert(instruction.encoding() =~= data@);
            Ok(instruction)
        } else if tag == 2 {
            if data.len() != 1 {
                return Err(EscrowError::MalformedInstruction);
            }
            assert(EscrowInstruction::CompleteSwap.encoding() =~= data@);
            Ok(EscrowInstruction::CompleteSwap)
        } else if tag == 3 {
            if data.len() != 1 {
                return Err(EscrowError::MalformedInstruction);
            }
            assert(EscrowInstruction::Cancel.encoding() =~= data@);
            Ok(EscrowInstruction::Cancel)
        } else {
            Err(EscrowError::MalformedInstruction)
        }
    }

    /// The bytes that stand for the command.
    pub fn to_vec(&self) -> (v: Vec<u8>)
        ensures
            v@ == self.encoding(),
    {
        let mut v: Vec<u8> = Vec::new();
        match self {
            EscrowInstruction::InitEscrow { token_a_mint, token_b_mint, amount_a, amount_b } => {
                v.push(0u8);
                push_address(&mut v, token_a_mint);
                push_address(&mut v, token_b_mint);
                push_u64(&mut v, *amount_a);
                push_u64(&mut v, *amount_b);
                assert(v@ =~= self.encoding());
            },
            EscrowInstruction::Deposit { amount } => {
                v.push(1u8);
                push_u64(&mut v, *amount);
                assert(v@ =~= self.encoding());
            },
            EscrowInstruction::CompleteSwap => {
                v.push(2u8);
                assert(v@ =~= self.encoding());
            },
            EscrowInstruction::Cancel => {
                v.push(3u8);
                assert(v@ =~= self.encoding());
            },
        }
        v
    }
}

/// An encoding opens with the command's tag and has the length that goes
/// with the tag.
pub proof fn lemma_encoding_shape(i: EscrowInstruction)
    ensures
        i.encoding().len() == EscrowInstruction::encoded_len(i.tag()),
        i.encoding()[0] == i.tag(),
        i.tag() < 4,
{
    match i {
        EscrowInstruction::InitEscrow { token_a_mint, token_b_mint, amount_a, amount_b } => {
            lemma_u64_bytes(amount_a, amount_b);
        },
        EscrowInstruction::Deposit { amount } => {
            lemma_u64_bytes(amount, amount);
        },
        _ => {},
    }
}

/// No two commands share an encoding.
pub proof fn lemma_encoding_injective(a: EscrowInstruction, b: EscrowInstruction)
    ensures
        a.encoding() == b.encoding() <==> a == b,
{
    if a.encoding() == b.encoding() {
        lemma_encoding_shape(a);
        lemma_encoding_shape(b);
        let s = a.encoding();
        match (a, b) {
            (
                EscrowInstruction::InitEscrow {
                    token_a_mint: a1,
                    token_b_mint: a2,
                    amount_a: a3,
                    amount_b: a4,
                },
                EscrowInstruction::InitEscrow {
                    token_a_mint: b1,
                    token_b_mint: b2,
                    amount_a: b3,
                    amount_b: b4,
                },
            ) => {
                lemma_address_ext(a1, b1);
                lemma_address_ext(a2, b2);
                lemma_u64_bytes(a3, b3);
                lemma_u64_bytes(a4, b4);
                assert(a1@ =~= s.subrange(1, 33));
                assert(b1@ =~= s.subrange(1, 33));
                assert(a2@ =~= s.subrange(33, 65));
                assert(b2@ =~= s.subrange(33, 65));
                assert(spec_u64_to_le_bytes(a3) =~= s.subrange(65, 73));
                assert(spec_u64_to_le_bytes(b3) =~= s.subrange(65, 73));
                assert(spec_u64_to_le_bytes(a4) =~= s.subrange(73, 81));
                assert(spec_u64_to_le_bytes(b4) =~= s.subrange(73, 81));
            },
            (EscrowInstruction::Deposit { amount: x }, EscrowInstruction::Deposit { amount: y }) => {
                lemma_u64_bytes(x, y);
                assert(spec_u64_to_le_bytes(x) =~= s.subrange(1, 9));
                assert(spec_u64_to_le_bytes(y) =~= s.subrange(1, 9));
            },
            _ => {},
        }
    }
}

} // verus!
