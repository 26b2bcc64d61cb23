//! The deterministic, off-curve address derivation that ties a program to
//! its sender authority. The derivation itself is done by the hosting
//! chain's scheme; this module gives its result a name that contracts can
//! speak of.

use vstd::prelude::*;

verus! {

/// What the chain's program-address derivation returns for a single seed and
/// a program identifier: the derived off-curve address and its bump, or
/// nothing in the (by construction never observed) case that no bump yields
/// an off-curve address. The result is a deterministic function of the seed
/// and the program identifier alone.
pub uninterp spec fn derived_address(seed: Seq<u8>, program_id: Seq<u8>) -> Option<(Seq<u8>, u8)>;

/// The seed under which a program's sender authority is derived:
/// the ASCII bytes of "sender".
pub open spec fn sender_seed() -> Seq<u8> {
    seq![115u8, 101u8, 110u8, 100u8, 101u8, 114u8]
}

/// The sender-authority seed as runnable bytes.
pub fn sender_seed_bytes() -> (r: Vec<u8>)
    ensures
        r@ == sender_seed(),
{
    let mut v: Vec<u8> = Vec::new();
    v.push(115);
    v.push(101);
    v.push(110);
    v.push(100);
    v.push(101);
    v.push(114);
    proof {
        assert(v@ =~= sender_seed());
    }
    v
}

/// Relies on solana_program::pubkey::Pubkey::try_find_program_address: for a
/// fixed seed slice and program id it deterministically returns the first
/// off-curve derived address, with its bump, and None only when no bump
/// yields one.
#[verifier::external_body]
pub(crate) fn try_derive_address(seed: &Vec<u8>, program_id: &[u8; 32]) -> (r: Option<([u8; 32], u8)>)
    ensures
        (match r {
            Some(ab) => derived_address(seed@, program_id@) == Some((ab.0@, ab.1)),
            None => derived_address(seed@, program_id@) is None,
        }),
{
    let program = solana_program::pubkey::Pubkey::new_from_array(*program_id);
    match solana_program::pubkey::Pubkey::try_find_program_address(&[seed.as_slice()], &program) {
        Some((address, bump)) => Some((address.to_bytes(), bump)),
        None => None,
    }
}

} // verus!
