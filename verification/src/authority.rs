use crate::address::Address;
use anchor_lang::prelude::Pubkey;
use vstd::bytes::{
    lemma_auto_spec_u64_to_from_le_bytes, spec_u64_to_le_bytes, spec_u64_to_le_bytes_open,
    spec_u64_to_le_bytes_to_open, u64_to_le_bytes,
};
use vstd::prelude::*;

verus! {

/// The address that the program `program_id` owns under `seeds`, or `None` where
/// the seeds give no such address. Equal seeds and program always give the same
/// answer: that is what lets a vault be spent without a key.
pub uninterp spec fn program_address(seeds: Seq<Seq<u8>>, program_id: Seq<u8>) -> Option<Seq<u8>>;

/// The domain tag that starts every escrow derivation: the ASCII bytes of `escrow`.
pub open spec fn escrow_tag() -> Seq<u8> {
    seq![0x65u8, 0x73u8, 0x63u8, 0x72u8, 0x6fu8, 0x77u8]
}

/// The seeds of an escrow record's authority: the tag, the maker's bytes, the
/// seed as eight little-endian bytes, and the bump as a single byte.
pub open spec fn escrow_seeds(maker: Seq<u8>, seed: u64, bump: u8) -> Seq<Seq<u8>> {
    seq![escrow_tag(), maker, spec_u64_to_le_bytes_open(seed), seq![bump]]
}

/// The authority that `program_id` holds over the escrow of `maker` under `seed`
/// and `bump`, if the derivation yields one.
pub open spec fn escrow_authority(program_id: Seq<u8>, maker: Seq<u8>, seed: u64, bump: u8) -> Option<
    Seq<u8>,
> {
    program_address(escrow_seeds(maker, seed, bump), program_id)
}

/// What an optional address holds, as bytes.
pub open spec fn address_bytes(a: Option<Address>) -> Option<Seq<u8>> {
    match a {
        Some(a) => Some(a@),
        None => None,
    }
}

/// Calls `anchor_lang::prelude::Pubkey::create_program_address` with the seeds
/// in order. Trusted, not proved: the result depends on the seeds and the
/// program alone, so it is `program_address` of them, with `None` standing for
/// every error of the outside function (too many seeds, a seed that is too
/// long, or a hash that lies on the curve).
#[verifier::external_body]
fn create_program_address(seeds: &Vec<Vec<u8>>, program_id: &Address) -> (r: Option<Address>)
    ensures
        address_bytes(r) == program_address(seeds.deep_view(), program_id@),
{
    let slices: Vec<&[u8]> = seeds.iter().map(|s| s.as_slice()).collect();
    match Pubkey::create_program_address(&slices, &Pubkey::new_from_array(program_id.bytes)) {
        Ok(key) => Some(Address { bytes: key.to_bytes() }),
        Err(_) => None,
    }
}

/// The six bytes of the domain tag.
pub fn tag_bytes() -> (v: Vec<u8>)
    ensures
        v@ == escrow_tag(),
{
    let mut v: Vec<u8> = Vec::new();
    v.push(0x65u8);
    v.push(0x73u8);
    v.push(0x63u8);
    v.push(0x72u8);
    v.push(0x6fu8);
    v.push(0x77u8);
    assert(v@ =~= escrow_tag());
    v
}

/// Lays out the seeds of an escrow record's authority.
pub fn signer_seeds(maker: &Address, seed: u64, bump: u8) -> (seeds: Vec<Vec<u8>>)
    ensures
        seeds.deep_view() == escrow_seeds(maker@, seed, bump),
{
    let mut last: Vec<u8> = Vec::new();
    last.push(bump);
    let mut seeds: Vec<Vec<u8>> = Vec::new();
    seeds.push(tag_bytes());
    seeds.push(maker.to_vec());
    seeds.push(u64_to_le_bytes(seed));
    seeds.push(last);
    assert(seeds.deep_view() =~= escrow_seeds(maker@, seed, bump)) by {
        spec_u64_to_le_bytes_to_open(seed);
        assert(seeds.deep_view().len() == 4);
        assert(seeds.deep_view()[0] == seeds@[0]@);
        assert(seeds.deep_view()[1] == seeds@[1]@);
        assert(seeds.deep_view()[2] == seeds@[2]@);
        assert(seeds.deep_view()[3] == seeds@[3]@);
        assert(seeds@[3]@ =~= seq![bump]);
    }
    seeds
}

/// Re-derives the authority of the escrow that `maker` opened under `seed` and
/// `bump` in the program `program_id`.
pub fn derive_escrow_authority(program_id: &Address, maker: &Address, seed: u64, bump: u8) -> (r:
    Option<Address>)
    ensures
        address_bytes(r) == escrow_authority(program_id@, maker@, seed, bump),
{
    let seeds = signer_seeds(maker, seed, bump);
    create_program_address(&seeds, program_id)
}

/// Different escrows derive from different seeds: the seeds give back the maker,
/// the seed and the bump that they were laid out from.
pub proof fn lemma_seeds_tell_escrows_apart(
    maker: Seq<u8>,
    seed: u64,
    bump: u8,
    other_maker: Seq<u8>,
    other_seed: u64,
    other_bump: u8,
)
    requires
        escrow_seeds(maker, seed, bump) == escrow_seeds(other_maker, other_seed, other_bump),
    ensures
        maker == other_maker,
        seed == other_seed,
        bump == other_bump,
{
    let a = escrow_seeds(maker, seed, bump);
    let b = escrow_seeds(other_maker, other_seed, other_bump);
    assert(a[1] == b[1]);
    assert(a[2] == b[2]);
    assert(a[3][0] == b[3][0]);
    spec_u64_to_le_bytes_to_open(seed);
    spec_u64_to_le_bytes_to_open(other_seed);
    lemma_auto_spec_u64_to_from_le_bytes();
    assert(spec_u64_to_le_bytes(seed) == spec_u64_to_le_bytes(other_seed));
}

} // verus!
