use vstd::prelude::*;
use anchor_lang::prelude::Pubkey;
use crate::address::Address;

verus! {

/// The address and bump seed that the ledger derives from `seed` under the
/// program `program`, or `None` where no bump seed yields a valid address.
pub uninterp spec fn program_address_of(seed: Seq<u8>, program: Seq<u8>) -> Option<(Seq<u8>, u8)>;

pub open spec fn derived_view(r: Option<([u8; 32], u8)>) -> Option<(Seq<u8>, u8)> {
    match r {
        Some((a, b)) => Some((a@, b)),
        None => None,
    }
}

/// Relies on `Pubkey::try_find_program_address`: a pure function of the seeds
/// and the program address, computed off-chain by hashing with each bump seed
/// from 255 downwards until the result lies off the curve.
#[verifier::external_body]
fn try_find_program_address(seed: &[u8], program: &[u8; 32]) -> (r: Option<([u8; 32], u8)>)
    ensures
        derived_view(r) == program_address_of(seed@, program@),
{
    Pubkey::try_find_program_address(&[seed], &Pubkey::new_from_array(*program))
        .map(|(k, b)| (k.to_bytes(), b))
}

/// The fixed seed, `"escrow_vault"` in ASCII, from which the vault's address is derived.
pub open spec fn vault_seed() -> Seq<u8> {
    seq![101u8, 115, 99, 114, 111, 119, 95, 118, 97, 117, 108, 116]
}

fn vault_seed_bytes() -> (r: Vec<u8>)
    ensures
        r@ == vault_seed(),
{
    let r: Vec<u8> = vec![101u8, 115, 99, 114, 111, 119, 95, 118, 97, 117, 108, 116];
    proof {
        assert(r@ =~= vault_seed());
    }
    r
}

/// The vault's address and bump seed under `program`: what the ledger derives
/// from the fixed vault seed, and nothing the caller supplies.
pub open spec fn vault_address_of(program: Seq<u8>) -> Option<(Seq<u8>, u8)> {
    program_address_of(vault_seed(), program)
}

/// Resolves the vault's address for the program `program_id`. The same program
/// always yields the same vault.
pub fn resolve_vault(program_id: &Address) -> (r: Option<(Address, u8)>)
    ensures
        match r {
            Some((a, b)) => vault_address_of(program_id@) == Some((a@, b)),
            None => vault_address_of(program_id@) is None,
        },
{
    let seed = vault_seed_bytes();
    match try_find_program_address(seed.as_slice(), &program_id.bytes) {
        Some((a, b)) => Some((Address { bytes: a }, b)),
        None => None,
    }
}

} // verus!
