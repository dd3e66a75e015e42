//! Thirty-two byte identities of parties, assets, programs and accounts.

use vstd::prelude::*;

verus! {

broadcast use vstd::array::group_array_axioms;

/// A 32-byte identity.
#[derive(Clone, Copy, Debug, Eq)]
pub struct Address {
    pub bytes: [u8; 32],
}

impl View for Address {
    type V = Seq<u8>;

    open spec fn view(&self) -> Seq<u8> {
        self.bytes@
    }
}

impl PartialEq for Address {
    fn eq(&self, other: &Address) -> (b: bool) {
        let mut i: usize = 0;
        while i < 32
            invariant
                i <= 32,
                forall|j: int| 0 <= j < i ==> self.bytes[j] == other.bytes[j],
            decreases 32 - i,
        {
            if self.bytes[i] != other.bytes[i] {
                return false;
            }
            i += 1;
        }
        assert(self.bytes =~= other.bytes);
        true
    }
}

impl vstd::std_specs::cmp::PartialEqSpecImpl for Address {
    open spec fn obeys_eq_spec() -> bool {
        true
    }

    open spec fn eq_spec(&self, other: &Address) -> bool {
        *self == *other
    }
}

impl Address {
    /// The identity with the given bytes.
    pub open spec fn from_seq(s: Seq<u8>) -> Address {
        choose|a: Address| a@ == s
    }

    /// The identity that stands for "nobody yet": thirty-two zero bytes.
    pub open spec fn unset_spec() -> Address {
        Address::from_seq(Seq::new(32, |i: int| 0u8))
    }

    /// Whether this is the identity that stands for "nobody yet".
    pub open spec fn is_unset(&self) -> bool {
        *self == Address::unset_spec()
    }

    /// The identity that stands for "nobody yet".
    pub fn unset() -> (a: Address)
        ensures
            a == Address::unset_spec(),
            a.is_unset(),
    {
        let a = Address { bytes: [0u8; 32] };
        proof {
            assert(a@ =~= Seq::new(32, |i: int| 0u8));
            lemma_from_seq(a);
        }
        a
    }

    /// Whether every byte is zero.
    pub fn check_unset(&self) -> (b: bool)
        ensures
            b == self.is_unset(),
    {
        let mut i: usize = 0;
        while i < 32
            invariant
                i <= 32,
                forall|j: int| 0 <= j < i ==> self@[j] == 0u8,
            decreases 32 - i,
        {
            if self.bytes[i] != 0 {
                proof {
                    lemma_unset_bytes(*self);
                    assert(self@[i as int] != 0u8);
                }
                return false;
            }
            i += 1;
        }
        proof {
            lemma_unset_bytes(*self);
        }
        true
    }
}

/// Two identities are the same value exactly when their bytes agree.
pub proof fn lemma_address_ext(a: Address, b: Address)
    ensures
        (a == b) <==> (a@ == b@),
        a@.len() == 32,
{
    if a@ == b@ {
        assert(a.bytes =~= b.bytes);
    }
}

/// An identity is the one with its own bytes.
pub proof fn lemma_from_seq(a: Address)
    ensures
        Address::from_seq(a@) == a,
{
    let c = Address::from_seq(a@);
    assert(c@ == a@);
    lemma_address_ext(c, a);
}

/// The unset identity is the one whose bytes are all zero.
pub proof fn lemma_unset_bytes(a: Address)
    ensures
        a.is_unset() <==> (forall|i: int| 0 <= i < 32 ==> a@[i] == 0u8),
{
    let zeros = Seq::new(32, |i: int| 0u8);
    if forall|i: int| 0 <= i < 32 ==> a@[i] == 0u8 {
        assert(a@ =~= zeros);
        lemma_from_seq(a);
    }
    if a.is_unset() {
        let witness = Address { bytes: vstd::array::spec_array_fill_for_copy_type::<u8, 32>(0u8) };
        assert(witness@ =~= zeros);
        lemma_from_seq(witness);
    }
}

} // verus!
