//! The escrow record as the bytes that its account holds.

use vstd::prelude::*;
use vstd::bytes::spec_u64_to_le_bytes;
use crate::address::lemma_address_ext;
use crate::codec::{lemma_u64_bytes, push_address, push_u64, read_address, read_u64};
use crate::errors::EscrowError;
use crate::state::{Escrow, EscrowStatus};

verus! {

broadcast use vstd::array::group_array_axioms;

/// Number of bytes that a record takes.
pub const RECORD_LEN: usize = 179;

/// The byte that stands for a flag.
pub open spec fn flag_byte(b: bool) -> u8 {
    if b {
        1
    } else {
        0
    }
}

impl EscrowStatus {
    /// The byte that stands for the status.
    pub open spec fn tag(self) -> u8 {
        match self {
            EscrowStatus::Active => 0,
            EscrowStatus::Completed => 1,
            EscrowStatus::Cancelled => 2,
        }
    }
}

impl Escrow {
    /// The bytes that stand for the record: its fields in order, identities
    /// as their 32 bytes, amounts as 8 bytes with the least significant
    /// first, flags and the status as one byte each.
    pub open spec fn encoding(self) -> Seq<u8> {
        self.user_a@ + self.user_b@ + self.token_a_mint@ + self.token_b_mint@
            + spec_u64_to_le_bytes(self.amount_a) + spec_u64_to_le_bytes(self.amount_b)
            + seq![flag_byte(self.token_a_deposited)] + seq![flag_byte(self.token_b_deposited)]
            + self.vault_pda@ + seq![self.status.tag()]
    }

    /// The record that the bytes stand for, if they stand for one.
    pub open spec fn decode_spec(data: Seq<u8>) -> Option<Escrow> {
        if exists|x: Escrow| x.encoding() == data {
            Some(choose|x: Escrow| x.encoding() == data)
        } else {
            None
        }
    }

    /// Reads a record from the bytes that stand for it.
    ///
    /// Succeeds exactly on the encodings of records; anything else (a
    /// wrong length, a flag that is neither 0 nor 1, an unknown status) is
    /// refused with `InvalidAccountData`.
    pub fn try_from_slice(data: &[u8]) -> (r: Result<Escrow, EscrowError>)
        ensures
            match r {
                Ok(record) => record.encoding() == data@,
                Err(e) => e == EscrowError::InvalidAccountData && forall|x: Escrow|
                    x.encoding() != data@,
            },
            r is Ok <==> Escrow::decode_spec(data@) is Some,
            r is Ok ==> Escrow::decode_spec(data@) == Some(r->Ok_0),
    {
        let r = Self::parse(data);
        proof {
            if let Ok(record) = r {
                lemma_record_injective(record, choose|x: Escrow| x.encoding() == data@);
            }
        }
        r
    }

    fn parse(data: &[u8]) -> (r: Result<Escrow, EscrowError>)
        ensures
            match r {
                Ok(record) => record.encoding() == data@,
                Err(e) => e == EscrowError::InvalidAccountData && forall|x: Escrow|
                    x.encoding() != data@,
            },
    {
        proof {
            assert forall|x: Escrow| #[trigger]
                x.encoding().len() == 179 && x.encoding()[144] <= 1 && x.encoding()[145] <= 1
                && x.encoding()[178] <= 2 by {
                lemma_record_shape(x);
            }
        }
        if data.len() != RECORD_LEN {
            return Err(EscrowError::InvalidAccountData);
        }
        let a_flag = data[144];
        let b_flag = data[145];
        let status_tag = data[178];
        if a_flag > 1 || b_flag > 1 {
            return Err(EscrowError::InvalidAccountData);
        }
        let status = if status_tag == 0 {
            EscrowStatus::Active
        } else if status_tag == 1 {
            EscrowStatus::Completed
        } else if status_tag == 2 {
            EscrowStatus::Cancelled
        } else {
            return Err(EscrowError::InvalidAccountData);
        };
        let record = Escrow {
            user_a: read_address(data, 0),
            user_b: read_address(data, 32),
            token_a_mint: read_address(data, 64),
            token_b_mint: read_address(data, 96),
            amount_a: read_u64(data, 128),
            amount_b: read_u64(data, 136),
            token_a_deposited: a_flag == 1,
            token_b_deposited: b_flag == 1,
            vault_pda: read_address(data, 146),
            status,
        };
        assert(record.encoding() =~= data@);
        Ok(record)
    }

    /// The bytes that stand for the record.
    pub fn to_vec(&self) -> (v: Vec<u8>)
        ensures
            v@ == self.encoding(),
            v@.len() == RECORD_LEN,
    {
        let mut v: Vec<u8> = Vec::new();
        push_address(&mut v, &self.user_a);
        push_address(&mut v, &self.user_b);
        push_address(&mut v, &self.token_a_mint);
        push_address(&mut v, &self.token_b_mint);
        push_u64(&mut v, self.amount_a);
        push_u64(&mut v, self.amount_b);
        v.push(if self.token_a_deposited { 1u8 } else { 0u8 });
        v.push(if self.token_b_deposited { 1u8 } else { 0u8 });
        push_address(&mut v, &self.vault_pda);
        v.push(
            match self.status {
                EscrowStatus::Active => 0u8,
                EscrowStatus::Completed => 1u8,
                EscrowStatus::Cancelled => 2u8,
            },
        );
        assert(v@ =~= self.encoding());
        proof {
            lemma_record_shape(*self);
        }
        v
    }
}

/// Every record takes the same number of bytes, with the flags and the
/// status at fixed places.
pub proof fn lemma_record_shape(x: Escrow)
    ensures
        x.encoding().len() == 179,
        x.encoding()[144] == flag_byte(x.token_a_deposited),
        x.encoding()[145] == flag_byte(x.token_b_deposited),
        x.encoding()[178] == x.status.tag(),
        x.encoding()[144] <= 1,
        x.encoding()[145] <= 1,
        x.encoding()[178] <= 2,
{
    lemma_u64_bytes(x.amount_a, x.amount_b);
}

/// No two records share an encoding.
pub proof fn lemma_record_injective(a: Escrow, b: Escrow)
    ensures
        a.encoding() == b.encoding() <==> a == b,
{
    if a.encoding() == b.encoding() {
        lemma_record_shape(a);
        lemma_record_shape(b);
        lemma_u64_bytes(a.amount_a, b.amount_a);
        lemma_u64_bytes(a.amount_b, b.amount_b);
        lemma_address_ext(a.user_a, b.user_a);
        lemma_address_ext(a.user_b, b.user_b);
        lemma_address_ext(a.token_a_mint, b.token_a_mint);
        lemma_address_ext(a.token_b_mint, b.token_b_mint);
        lemma_address_ext(a.vault_pda, b.vault_pda);
        let s = a.encoding();
        let t = b.encoding();
        assert(a.user_a@ =~= s.subrange(0, 32));
        assert(b.user_a@ =~= t.subrange(0, 32));
        assert(a.user_b@ =~= s.subrange(32, 64));
        assert(b.user_b@ =~= t.subrange(32, 64));
        assert(a.token_a_mint@ =~= s.subrange(64, 96));
        assert(b.token_a_mint@ =~= t.subrange(64, 96));
        assert(a.token_b_mint@ =~= s.subrange(96, 128));
        assert(b.token_b_mint@ =~= t.subrange(96, 128));
        assert(spec_u64_to_le_bytes(a.amount_a) =~= s.subrange(128, 136));
        assert(spec_u64_to_le_bytes(b.amount_a) =~= t.subrange(128, 136));
        assert(spec_u64_to_le_bytes(a.amount_b) =~= s.subrange(136, 144));
        assert(spec_u64_to_le_bytes(b.amount_b) =~= t.subrange(136, 144));
        assert(a.vault_pda@ =~= s.subrange(146, 178));
        assert(b.vault_pda@ =~= t.subrange(146, 178));
        assert(a.token_a_deposited == b.token_a_deposited);
        assert(a.token_b_deposited == b.token_b_deposited);
        assert(a.status == b.status);
    }
}

} // verus!
