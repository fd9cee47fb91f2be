//! Opaque 32-byte account identifiers.

use vstd::prelude::*;
use anchor_lang::solana_program::pubkey::Pubkey;

verus! {

/// Identifier of an account: a wallet, a record, or the program itself.
///
/// Identifiers are compared by their bytes and carry no other meaning.
#[derive(Clone, Copy, Debug, PartialEq, Eq)]
pub struct Address {
    pub bytes: [u8; 32],
}

impl View for Address {
    type V = Seq<u8>;

    open spec fn view(&self) -> Seq<u8> {
        self.bytes@
    }
}

/// The all-zero identifier, which stands for "no wallet".
pub open spec fn zero_address() -> Address {
    Address { bytes: vstd::array::spec_array_fill_for_copy_type::<u8, 32>(0u8) }
}

/// The identifier whose bytes are `bytes`.
pub open spec fn address_of(bytes: Seq<u8>) -> Address {
    choose|a: Address| a@ == bytes
}

/// Two identifiers with the same bytes are the same identifier.
pub proof fn lemma_address_by_bytes(a: Address, b: Address)
    ensures
        (a@ == b@) <==> (a == b),
{
    if a@ == b@ {
        assert(forall|i: int| 0 <= i < 32 ==> a.bytes[i] == a@[i]);
        assert(forall|i: int| 0 <= i < 32 ==> b.bytes[i] == b@[i]);
        assert(a.bytes =~= b.bytes);
    }
}

impl Address {
    /// Builds an identifier from its bytes.
    pub fn new(bytes: [u8; 32]) -> (r: Address)
        ensures
            r == (Address { bytes }),
    {
        Address { bytes }
    }

    /// The all-zero identifier.
    pub fn zero() -> (r: Address)
        ensures
            r == zero_address(),
            forall|i: int| 0 <= i < 32 ==> r@[i] == 0,
    {
        Address { bytes: [0u8; 32] }
    }

    /// Whether two identifiers are the same.
    pub fn same(&self, other: &Address) -> (r: bool)
        ensures
            r == (*self == *other),
    {
        let mut i: usize = 0;
        while i < 32
            invariant
                i <= 32,
                forall|j: int| 0 <= j < i ==> self.bytes@[j] == other.bytes@[j],
            decreases 32 - i,
        {
            if self.bytes[i] != other.bytes[i] {
                return false;
            }
            i += 1;
        }
        proof {
            assert(self@ =~= other@);
            lemma_address_by_bytes(*self, *other);
        }
        true
    }

    /// Whether this is the all-zero identifier.
    pub fn is_zero(&self) -> (r: bool)
        ensures
            r == (*self == zero_address()),
    {
        let z = Address::zero();
        self.same(&z)
    }
}

/// The address the host derives from `seeds` for the program `program`,
/// with the bump it settles on, or `None` where the seeds admit none.
pub uninterp spec fn derived_address(seeds: Seq<Seq<u8>>, program: Seq<u8>) -> Option<(Seq<u8>, u8)>;

/// The seeds as plain byte sequences.
pub open spec fn seeds_view(seeds: Seq<Vec<u8>>) -> Seq<Seq<u8>> {
    seeds.map_values(|s: Vec<u8>| s@)
}

/// Derives the address of a record from its seeds.
///
/// This calls `Pubkey::try_find_program_address`, which hashes the seeds,
/// a bump and the program's identifier, and tries bumps from 255 down until
/// the hash is a valid derived address. The outcome depends on the seeds
/// and the program alone; that it is this one derivation is taken on trust.
#[verifier::external_body]
pub(crate) fn find_address(seeds: &Vec<Vec<u8>>, program: &Address) -> (r: Option<(Address, u8)>)
    ensures
        r is Some <==> derived_address(seeds_view(seeds@), program@) is Some,
        r is Some ==> derived_address(seeds_view(seeds@), program@) == Some(
            (r->Some_0.0@, r->Some_0.1),
        ),
{
    let mut parts: Vec<&[u8]> = Vec::new();
    for seed in seeds.iter() {
        parts.push(seed.as_slice());
    }
    match Pubkey::try_find_program_address(&parts, &Pubkey::new_from_array(program.bytes)) {
        Some((key, bump)) => Some((Address { bytes: key.to_bytes() }, bump)),
        None => None,
    }
}

} // verus!
