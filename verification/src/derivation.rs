//! Where records live: every record sits at an address derived from a
//! namespace tag and the identifiers of what it belongs to.

use vstd::prelude::*;
use crate::address::{
    address_of, derived_address, find_address, lemma_address_by_bytes, seeds_view, Address,
};

verus! {

/// The address derived from `seeds` for `program`, with its bump, or `None`
/// where the seeds admit none.
pub open spec fn derive(seeds: Seq<Seq<u8>>, program: Address) -> Option<(Address, u8)> {
    match derived_address(seeds, program@) {
        Some((bytes, bump)) => Some((address_of(bytes), bump)),
        None => None,
    }
}

/// A 64-bit value as it enters a seed: eight bytes, low byte first.
pub open spec fn u64_le(x: u64) -> Seq<u8> {
    seq![
        (x % 256) as u8,
        (x / 0x100 % 256) as u8,
        (x / 0x1_0000 % 256) as u8,
        (x / 0x100_0000 % 256) as u8,
        (x / 0x1_0000_0000 % 256) as u8,
        (x / 0x100_0000_0000 % 256) as u8,
        (x / 0x1_0000_0000_0000 % 256) as u8,
        (x / 0x100_0000_0000_0000 % 256) as u8,
    ]
}

/// The namespace tag of the policy record: the text `config`.
pub open spec fn config_tag() -> Seq<u8> {
    seq![0x63u8, 0x6f, 0x6e, 0x66, 0x69, 0x67]
}

/// The namespace tag of campaign records: the text `campaign`.
pub open spec fn campaign_tag() -> Seq<u8> {
    seq![0x63u8, 0x61, 0x6d, 0x70, 0x61, 0x69, 0x67, 0x6e]
}

/// The namespace tag of vault records: the text `vault`.
pub open spec fn vault_tag() -> Seq<u8> {
    seq![0x76u8, 0x61, 0x75, 0x6c, 0x74]
}

/// The namespace tag of coupon records: the text `coupon`.
pub open spec fn coupon_tag() -> Seq<u8> {
    seq![0x63u8, 0x6f, 0x75, 0x70, 0x6f, 0x6e]
}

/// Where the policy record of `program` lives.
pub open spec fn config_address_of(program: Address) -> Option<(Address, u8)> {
    derive(seq![config_tag()], program)
}

/// Where the campaign numbered `campaign_id` of `merchant` lives.
pub open spec fn campaign_address_of(program: Address, merchant: Address, campaign_id: u64) -> Option<
    (Address, u8),
> {
    derive(seq![campaign_tag(), merchant@, u64_le(campaign_id)], program)
}

/// Where the vault of the campaign at `campaign` lives.
pub open spec fn vault_address_of(program: Address, campaign: Address) -> Option<(Address, u8)> {
    derive(seq![vault_tag(), campaign@], program)
}

/// Where coupon number `coupon_index` of the campaign at `campaign` lives.
pub open spec fn coupon_address_of(program: Address, campaign: Address, coupon_index: u64) -> Option<
    (Address, u8),
> {
    derive(seq![coupon_tag(), campaign@, u64_le(coupon_index)], program)
}

/// Derives the address that belongs to `seeds` under `program`.
pub fn derive_address(seeds: &Vec<Vec<u8>>, program: &Address) -> (r: Option<(Address, u8)>)
    ensures
        r == derive(seeds_view(seeds@), *program),
{
    match find_address(seeds, program) {
        Some((key, bump)) => {
            proof {
                let bytes = derived_address(seeds_view(seeds@), program@)->Some_0.0;
                assert(key@ == bytes);
                lemma_address_by_bytes(key, address_of(bytes));
            }
            Some((key, bump))
        },
        None => None,
    }
}

/// The bytes of an identifier, as a seed.
fn address_seed(a: &Address) -> (r: Vec<u8>)
    ensures
        r@ == a@,
{
    let mut out: Vec<u8> = Vec::new();
    let mut i: usize = 0;
    while i < 32
        invariant
            i <= 32,
            out@ == a@.subrange(0, i as int),
        decreases 32 - i,
    {
        out.push(a.bytes[i]);
        assert(out@ =~= a@.subrange(0, i + 1));
        i += 1;
    }
    assert(a@.subrange(0, 32) =~= a@);
    out
}

/// A 64-bit value as a seed.
fn u64_seed(x: u64) -> (r: Vec<u8>)
    ensures
        r@ == u64_le(x),
{
    let mut out: Vec<u8> = Vec::new();
    out.push((x % 256) as u8);
    out.push((x / 0x100 % 256) as u8);
    out.push((x / 0x1_0000 % 256) as u8);
    out.push((x / 0x100_0000 % 256) as u8);
    out.push((x / 0x1_0000_0000 % 256) as u8);
    out.push((x / 0x100_0000_0000 % 256) as u8);
    out.push((x / 0x1_0000_0000_0000 % 256) as u8);
    out.push((x / 0x100_0000_0000_0000 % 256) as u8);
    assert(out@ =~= u64_le(x));
    out
}

/// Derives the address of the policy record.
pub fn config_address(program: &Address) -> (r: Option<(Address, u8)>)
    ensures
        r == config_address_of(*program),
{
    let mut tag: Vec<u8> = Vec::new();
    tag.push(0x63);
    tag.push(0x6f);
    tag.push(0x6e);
    tag.push(0x66);
    tag.push(0x69);
    tag.push(0x67);
    assert(tag@ =~= config_tag());
    let mut seeds: Vec<Vec<u8>> = Vec::new();
    seeds.push(tag);
    assert(seeds_view(seeds@) =~= seq![config_tag()]);
    derive_address(&seeds, program)
}

/// Derives the address of a merchant's campaign.
pub fn campaign_address(program: &Address, merchant: &Address, campaign_id: u64) -> (r: Option<
    (Address, u8),
>)
    ensures
        r == campaign_address_of(*program, *merchant, campaign_id),
{
    let mut tag: Vec<u8> = Vec::new();
    tag.push(0x63);
    tag.push(0x61);
    tag.push(0x6d);
    tag.push(0x70);
    tag.push(0x61);
    tag.push(0x69);
    tag.push(0x67);
    tag.push(0x6e);
    assert(tag@ =~= campaign_tag());
    let mut seeds: Vec<Vec<u8>> = Vec::new();
    seeds.push(tag);
    seeds.push(address_seed(merchant));
    seeds.push(u64_seed(campaign_id));
    assert(seeds_view(seeds@) =~= seq![campaign_tag(), merchant@, u64_le(campaign_id)]);
    derive_address(&seeds, program)
}

/// Derives the address of a campaign's vault.
pub fn vault_address(program: &Address, campaign: &Address) -> (r: Option<(Address, u8)>)
    ensures
        r == vault_address_of(*program, *campaign),
{
    let mut tag: Vec<u8> = Vec::new();
    tag.push(0x76);
    tag.push(0x61);
    tag.push(0x75);
    tag.push(0x6c);
    tag.push(0x74);
    assert(tag@ =~= vault_tag());
    let mut seeds: Vec<Vec<u8>> = Vec::new();
    seeds.push(tag);
    seeds.push(address_seed(campaign));
    assert(seeds_view(seeds@) =~= seq![vault_tag(), campaign@]);
    derive_address(&seeds, program)
}

/// Derives the address of a coupon of a campaign.
pub fn coupon_address(program: &Address, campaign: &Address, coupon_index: u64) -> (r: Option<
    (Address, u8),
>)
    ensures
        r == coupon_address_of(*program, *campaign, coupon_index),
{
    let mut tag: Vec<u8> = Vec::new();
    tag.push(0x63);
    tag.push(0x6f);
    tag.push(0x75);
    tag.push(0x70);
    tag.push(0x6f);
    tag.push(0x6e);
    assert(tag@ =~= coupon_tag());
    let mut seeds: Vec<Vec<u8>> = Vec::new();
    seeds.push(tag);
    seeds.push(address_seed(campaign));
    seeds.push(u64_seed(coupon_index));
    assert(seeds_view(seeds@) =~= seq![coupon_tag(), campaign@, u64_le(coupon_index)]);
    derive_address(&seeds, program)
}

} // verus!
