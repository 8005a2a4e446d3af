//! Addresses and their deterministic derivation from seeds.

use solana_program::pubkey::Pubkey;
use vstd::bytes::*;
use vstd::prelude::*;

verus! {

/// A 32-byte account or program address.
pub type Address = [u8; 32];

/// The address and bump that the host's derivation finds for `seeds` under
/// `program_id`, or `None` where it finds none.
pub uninterp spec fn spec_find_program_address(seeds: Seq<Seq<u8>>, program_id: Seq<u8>) -> Option<
    (Address, u8),
>;

/// Calls `Pubkey::try_find_program_address`. Trusted: the result is a function
/// of the seeds and the program address alone, which the contract names.
#[verifier::external_body]
fn try_find_program_address(seeds: &Vec<Vec<u8>>, program_id: &Address) -> (r: Option<
    (Address, u8),
>)
    ensures
        r == spec_find_program_address(seeds.deep_view(), program_id@),
{
    let parts: Vec<&[u8]> = seeds.iter().map(|s| s.as_slice()).collect();
    Pubkey::try_find_program_address(&parts, &Pubkey::new_from_array(*program_id)).map(
        |(key, bump)| (key.to_bytes(), bump),
    )
}

/// The seed prefix of every validation account.
pub open spec fn extra_account_metas_seed() -> Seq<u8> {
    seq![
        101u8, 120u8, 116u8, 114u8, 97u8, 45u8, 97u8, 99u8, 99u8, 111u8, 117u8, 110u8, 116u8, 45u8,
        109u8, 101u8, 116u8, 97u8, 115u8,
    ]
}

/// Seeds of the payer sub-account of a mint and its authority.
pub open spec fn payer_seeds(mint: Address, authority: Address) -> Seq<Seq<u8>> {
    seq![mint@, authority@]
}

/// Seeds of the single-use sub-account of one request.
pub open spec fn ephemeral_seeds(mint: Address, authority: Address, total_calls: u64) -> Seq<
    Seq<u8>,
> {
    seq![mint@, authority@, spec_u64_to_le_bytes(total_calls)]
}

/// Seeds of the validation account of a mint.
pub open spec fn validation_seeds(mint: Address) -> Seq<Seq<u8>> {
    seq![extra_account_metas_seed(), mint@]
}

/// The seeds that sign for a derived address: its seeds, then its bump.
pub open spec fn signer_seeds(seeds: Seq<Seq<u8>>, bump: u8) -> Seq<Seq<u8>> {
    seeds.push(seq![bump])
}

/// Whether two addresses are the same.
pub fn same_address(a: &Address, b: &Address) -> (r: bool)
    ensures
        r == (*a == *b),
{
    let mut i: usize = 0;
    while i < 32
        invariant
            i <= 32,
            forall|j: int| 0 <= j < i ==> a[j] == b[j],
        decreases 32 - i,
    {
        if a[i] != b[i] {
            return false;
        }
        i += 1;
    }
    assert(*a =~= *b);
    true
}

/// The bytes of an address as an owned seed.
pub fn address_bytes(a: &Address) -> (r: Vec<u8>)
    ensures
        r@ == a@,
{
    let mut out: Vec<u8> = Vec::new();
    let mut i: usize = 0;
    while i < 32
        invariant
            i <= 32,
            out@.len() == i,
            forall|j: int| 0 <= j < i ==> out@[j] == a@[j],
        decreases 32 - i,
    {
        out.push(a[i]);
        i += 1;
    }
    assert(out@ =~= a@);
    out
}

/// The address deriver: the address and bump for `seeds` under `program_id`.
///
/// `None` where no bump yields an address, or where the seeds are more or
/// longer than the host admits.
pub fn find_program_address(seeds: &Vec<Vec<u8>>, program_id: &Address) -> (r: Option<(Address, u8)>)
    ensures
        r == spec_find_program_address(seeds.deep_view(), program_id@),
{
    try_find_program_address(seeds, program_id)
}

/// The seed prefix of every validation account, as bytes.
pub fn extra_account_metas_seed_bytes() -> (r: Vec<u8>)
    ensures
        r@ == extra_account_metas_seed(),
{
    let r: Vec<u8> = vec![
        101u8, 120u8, 116u8, 114u8, 97u8, 45u8, 97u8, 99u8, 99u8, 111u8, 117u8, 110u8, 116u8, 45u8,
        109u8, 101u8, 116u8, 97u8, 115u8,
    ];
    assert(r@ =~= extra_account_metas_seed());
    r
}

/// Executable form of [`payer_seeds`].
pub fn collect_payer_seeds(mint: &Address, authority: &Address) -> (r: Vec<Vec<u8>>)
    ensures
        r.deep_view() == payer_seeds(*mint, *authority),
{
    let mut r: Vec<Vec<u8>> = Vec::new();
    r.push(address_bytes(mint));
    r.push(address_bytes(authority));
    assert(r.deep_view() =~~= payer_seeds(*mint, *authority));
    r
}

/// Executable form of [`ephemeral_seeds`].
pub fn collect_ephemeral_seeds(mint: &Address, authority: &Address, total_calls: u64) -> (r: Vec<
    Vec<u8>,
>)
    ensures
        r.deep_view() == ephemeral_seeds(*mint, *authority, total_calls),
{
    let mut r: Vec<Vec<u8>> = Vec::new();
    r.push(address_bytes(mint));
    r.push(address_bytes(authority));
    r.push(u64_to_le_bytes(total_calls));
    assert(r.deep_view() =~~= ephemeral_seeds(*mint, *authority, total_calls));
    r
}

/// Executable form of [`validation_seeds`].
pub fn collect_extra_account_metas_seeds(mint: &Address) -> (r: Vec<Vec<u8>>)
    ensures
        r.deep_view() == validation_seeds(*mint),
{
    let mut r: Vec<Vec<u8>> = Vec::new();
    r.push(extra_account_metas_seed_bytes());
    r.push(address_bytes(mint));
    assert(r.deep_view() =~~= validation_seeds(*mint));
    r
}

/// Appends the bump to a derived address's seeds, which makes them sign for it.
pub fn with_bump(seeds: Vec<Vec<u8>>, bump: u8) -> (r: Vec<Vec<u8>>)
    ensures
        r.deep_view() == signer_seeds(seeds.deep_view(), bump),
{
    let mut r = seeds;
    let mut last: Vec<u8> = Vec::new();
    last.push(bump);
    assert(last@ =~= seq![bump]);
    r.push(last);
    assert(r.deep_view() =~~= signer_seeds(seeds.deep_view(), bump));
    r
}

/// The address and bump of the validation account of `mint` under `program_id`.
pub fn get_extra_account_metas_address_and_bump_seed(mint: &Address, program_id: &Address) -> (r:
    Option<(Address, u8)>)
    ensures
        r == spec_find_program_address(validation_seeds(*mint), program_id@),
{
    let seeds = collect_extra_account_metas_seeds(mint);
    find_program_address(&seeds, program_id)
}

/// Identical seeds under an identical program address derive the identical
/// address and bump.
pub proof fn derivation_is_deterministic(
    seeds_a: Seq<Seq<u8>>,
    program_a: Address,
    seeds_b: Seq<Seq<u8>>,
    program_b: Address,
)
    requires
        seeds_a == seeds_b,
        program_a == program_b,
    ensures
        spec_find_program_address(seeds_a, program_a@) == spec_find_program_address(
            seeds_b,
            program_b@,
        ),
{
}

} // verus!
