//! Reading and writing the fixed-width fields of the byte encodings:
//! identities as their 32 bytes, amounts as 8 bytes, least significant first.

use vstd::prelude::*;
use vstd::bytes::{spec_u64_from_le_bytes, spec_u64_to_le_bytes, u64_from_le_bytes, u64_to_le_bytes};
use vstd::slice::slice_subrange;
use crate::address::Address;

verus! {

broadcast use vstd::array::group_array_axioms;

/// The identity whose bytes stand at `offset` in `data`.
pub fn read_address(data: &[u8], offset: usize) -> (a: Address)
    requires
        offset + 32 <= data.len(),
    ensures
        a@ == data@.subrange(offset as int, offset + 32),
{
    let mut bytes = [0u8; 32];
    let mut i: usize = 0;
    while i < 32
        invariant
            i <= 32,
            offset + 32 <= data.len(),
            forall|j: int| 0 <= j < i ==> bytes@[j] == data@[offset + j],
        decreases 32 - i,
    {
        bytes[i] = data[offset + i];
        i += 1;
    }
    let a = Address { bytes };
    assert(a@ =~= data@.subrange(offset as int, offset + 32));
    a
}

/// The amount whose 8 bytes stand at `offset` in `data`.
pub fn read_u64(data: &[u8], offset: usize) -> (x: u64)
    requires
        offset + 8 <= data.len(),
    ensures
        spec_u64_to_le_bytes(x) == data@.subrange(offset as int, offset + 8),
        x == spec_u64_from_le_bytes(data@.subrange(offset as int, offset + 8)),
{
    let field = slice_subrange(data, offset, offset + 8);
    let x = u64_from_le_bytes(field);
    proof {
        vstd::bytes::lemma_auto_spec_u64_to_from_le_bytes();
    }
    x
}

/// Appends the 32 bytes of an identity.
pub fn push_address(out: &mut Vec<u8>, a: &Address)
    ensures
        final(out)@ == old(out)@ + a@,
{
    let mut i: usize = 0;
    while i < 32
        invariant
            i <= 32,
            out@ == old(out)@ + a@.subrange(0, i as int),
        decreases 32 - i,
    {
        out.push(a.bytes[i]);
        assert(a@.subrange(0, i + 1) =~= a@.subrange(0, i as int).push(a@[i as int]));
        i += 1;
    }
    assert(a@.subrange(0, 32) =~= a@);
}

/// Appends the 8 bytes of an amount.
pub fn push_u64(out: &mut Vec<u8>, x: u64)
    ensures
        final(out)@ == old(out)@ + spec_u64_to_le_bytes(x),
{
    let mut field = u64_to_le_bytes(x);
    out.append(&mut field);
}

/// An amount is known by its 8 bytes, and they by the amount.
pub proof fn lemma_u64_bytes(x: u64, y: u64)
    ensures
        spec_u64_to_le_bytes(x).len() == 8,
        spec_u64_to_le_bytes(y).len() == 8,
        spec_u64_to_le_bytes(x) == spec_u64_to_le_bytes(y) <==> x == y,
{
    vstd::bytes::lemma_auto_spec_u64_to_from_le_bytes();
    if spec_u64_to_le_bytes(x) == spec_u64_to_le_bytes(y) {
        assert(spec_u64_from_le_bytes(spec_u64_to_le_bytes(x)) == x);
        assert(spec_u64_from_le_bytes(spec_u64_to_le_bytes(y)) == y);
    }
}

} // verus!
