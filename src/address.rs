//! Program-derived addresses: every program-owned account (vault authority,
//! escrow record, receipts) sits at an address computed from fixed seeds.

use crate::key::Key;
use crate::state::{Deposit, Escrow, Withdraw};
use vstd::prelude::*;
use vstd::string::StringSliceAdditionalSpecFns;

verus! {

/// First seed of every address this program derives.
pub const PREFIX: &'static str = "card";

/// The address and bump that the ledger's search derives from `seeds` and
/// `program_id`, or `None` where no bump gives an address off the curve.
pub uninterp spec fn program_address_of(seeds: Seq<Seq<u8>>, program_id: Seq<u8>) -> Option<
    (Seq<u8>, u8),
>;

/// The bytes of each seed.
pub open spec fn seed_views(seeds: Seq<Vec<u8>>) -> Seq<Seq<u8>> {
    seeds.map_values(|s: Vec<u8>| s@)
}

/// A found address seen as bytes and bump.
pub open spec fn found(r: Option<(Key, u8)>) -> Option<(Seq<u8>, u8)> {
    match r {
        Some((k, b)) => Some((k@, b)),
        None => None,
    }
}

/// Relies on solana_program's `Pubkey::try_find_program_address`: a
/// deterministic search over the hash of the seeds, the bump and the program id.
#[verifier::external_body]
fn try_find_program_address(seeds: &Vec<Vec<u8>>, program_id: &Key) -> (r: Option<(Key, u8)>)
    ensures
        found(r) == program_address_of(seed_views(seeds@), program_id@),
{
    let parts: Vec<&[u8]> = seeds.iter().map(|s| s.as_slice()).collect();
    let program = solana_program::pubkey::Pubkey::new_from_array(program_id.0);
    solana_program::pubkey::Pubkey::try_find_program_address(&parts, &program).map(
        |(k, b)| (Key(k.to_bytes()), b),
    )
}

/// Seeds of the vault authority.
pub open spec fn authority_seeds(program_id: Seq<u8>) -> Seq<Seq<u8>> {
    seq![PREFIX.spec_bytes(), program_id]
}

/// Seeds of a record kept under `reference` with the given tag.
pub open spec fn record_seeds(program_id: Seq<u8>, reference: Seq<u8>, tag: Seq<u8>) -> Seq<
    Seq<u8>,
> {
    seq![PREFIX.spec_bytes(), program_id, reference, tag]
}

/// The vault authority's address and bump.
pub open spec fn vault_authority_of(program_id: Seq<u8>) -> Option<(Seq<u8>, u8)> {
    program_address_of(authority_seeds(program_id), program_id)
}

/// Copies a string's bytes into a seed.
fn seed_of(s: &str) -> (r: Vec<u8>)
    ensures
        r@ == s.spec_bytes(),
{
    let b = s.as_bytes();
    let mut out: Vec<u8> = Vec::new();
    let mut i: usize = 0;
    while i < b.len()
        invariant
            i <= b@.len(),
            b@ == s.spec_bytes(),
            out@ == b@.subrange(0, i as int),
        decreases b@.len() - i,
    {
        out.push(b[i]);
        i = i + 1;
    }
    assert(out@ =~= b@);
    out
}

/// The program's vault authority: the derived signer that alone moves funds
/// out of a vault.
pub fn find_program_authority(program_id: &Key) -> (r: Option<(Key, u8)>)
    ensures
        found(r) == vault_authority_of(program_id@),
{
    let mut seeds: Vec<Vec<u8>> = Vec::new();
    seeds.push(seed_of(PREFIX));
    seeds.push(program_id.to_vec());
    proof {
        assert(seed_views(seeds@) =~= authority_seeds(program_id@));
    }
    try_find_program_address(&seeds, program_id)
}

/// The address of a record kept under `reference` with the seed tag `tag`.
pub fn find_record_address(program_id: &Key, reference: &Key, tag: &str) -> (r: Option<(Key, u8)>)
    ensures
        found(r) == program_address_of(
            record_seeds(program_id@, reference@, tag.spec_bytes()),
            program_id@,
        ),
{
    let mut seeds: Vec<Vec<u8>> = Vec::new();
    seeds.push(seed_of(PREFIX));
    seeds.push(program_id.to_vec());
    seeds.push(reference.to_vec());
    seeds.push(seed_of(tag));
    proof {
        assert(seed_views(seeds@) =~= record_seeds(program_id@, reference@, tag.spec_bytes()));
    }
    try_find_program_address(&seeds, program_id)
}

/// The address of the deposit receipt kept under `reference`.
pub fn find_deposit_program_address(program_id: &Key, reference: &Key) -> (r: Option<(Key, u8)>)
    ensures
        found(r) == program_address_of(
            record_seeds(program_id@, reference@, Deposit::PREFIX.spec_bytes()),
            program_id@,
        ),
{
    find_record_address(program_id, reference, Deposit::PREFIX)
}

/// The address of the withdrawal receipt kept under `reference`.
pub fn find_withdrawal_program_address(program_id: &Key, reference: &Key) -> (r: Option<
    (Key, u8),
>)
    ensures
        found(r) == program_address_of(
            record_seeds(program_id@, reference@, Withdraw::PREFIX.spec_bytes()),
            program_id@,
        ),
{
    find_record_address(program_id, reference, Withdraw::PREFIX)
}

/// The address of the escrow record kept under `reference`.
pub fn find_escrow_program_address(program_id: &Key, reference: &Key) -> (r: Option<(Key, u8)>)
    ensures
        found(r) == program_address_of(
            record_seeds(program_id@, reference@, Escrow::PREFIX.spec_bytes()),
            program_id@,
        ),
{
    find_record_address(program_id, reference, Escrow::PREFIX)
}

} // verus!
