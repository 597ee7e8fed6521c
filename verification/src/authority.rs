use vstd::prelude::*;

use crate::identity::Identity;

verus! {

/// What the ledger's program-address derivation returns for a given seed and
/// program identity: a keyless authority identity and its bump proof, or
/// nothing in the statistically improbable event that no bump works. The
/// derivation is a pure function of its two arguments, so it carries a name
/// rather than a spelled-out definition.
pub uninterp spec fn derived_authority(seed: Seq<u8>, program_id: Seq<u8>) -> Option<(Seq<u8>, u8)>;

/// The fixed seed this escrow derives its custody authority from: the seven
/// bytes that spell "auction" in ASCII.
pub open spec fn spec_escrow_seed() -> Seq<u8> {
    seq![97u8, 117u8, 99u8, 116u8, 105u8, 111u8, 110u8]
}

/// The custody authority of an escrow run by the program with the given
/// identity, together with its bump proof.
pub open spec fn spec_escrow_authority(program_id: Seq<u8>) -> Option<(Seq<u8>, u8)> {
    derived_authority(spec_escrow_seed(), program_id)
}

/// Relies on Pubkey::try_find_program_address: the returned address and bump
/// are a deterministic function of the seeds and the program identity, and
/// None comes only when no bump yields a valid off-curve address.
#[verifier::external_body]
fn find_program_authority(seed: &Vec<u8>, program_id: &Identity) -> (r: Option<(Identity, u8)>)
    ensures
        match r {
            Option::Some(p) => derived_authority(seed@, program_id@) == Some((p.0@, p.1)),
            Option::None => derived_authority(seed@, program_id@) is None,
        },
{
    let program = solana_program::pubkey::Pubkey::new_from_array(program_id.bytes);
    match solana_program::pubkey::Pubkey::try_find_program_address(&[seed.as_slice()], &program) {
        Some((address, bump)) => Some((Identity { bytes: address.to_bytes() }, bump)),
        None => None,
    }
}

/// Derives the keyless custody authority and its bump proof from the
/// program's identity and the fixed escrow seed. Same identity in, same
/// authority out, every call.
pub fn derive_escrow_authority(program_id: &Identity) -> (r: Option<(Identity, u8)>)
    ensures
        match r {
            Option::Some(p) => spec_escrow_authority(program_id@) == Some((p.0@, p.1)),
            Option::None => spec_escrow_authority(program_id@) is None,
        },
{
    let mut seed: Vec<u8> = Vec::new();
    seed.push(97);
    seed.push(117);
    seed.push(99);
    seed.push(116);
    seed.push(105);
    seed.push(111);
    seed.push(110);
    proof {
        assert(seed@ =~= spec_escrow_seed());
    }
    find_program_authority(&seed, program_id)
}

} // verus!
