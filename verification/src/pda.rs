//! Deterministic derivation of a review's storage address.
//!
//! The canonical address for a review is derived from the seed pair
//! (owner key, title bytes) and the module id, by appending a single
//! disambiguating bump byte (scanned from 255 downward) and hashing
//! until the result lies outside the space of ordinary identities. The
//! search is a pure function of its inputs; it is the module's sole
//! authorization primitive, so it is exposed standalone here.

use vstd::prelude::*;

verus! {

/// The derived (address, bump) pair for the seed pair (owner, title)
/// under the given module id, or `None` in the statistically improbable
/// event that no bump byte yields a usable address, or where a seed
/// exceeds the host's seed limits. The derivation depends on its
/// arguments alone.
pub uninterp spec fn derived_review_address(
    owner: Seq<u8>,
    title: Seq<u8>,
    program_id: Seq<u8>,
) -> Option<(Seq<u8>, u8)>;

/// Relies on Pubkey::try_find_program_address (solana-program): the
/// bump search over sha-256 that yields an off-curve 32-byte address,
/// deterministic in the seeds and program id, `None` only when no bump
/// works or a seed breaks the limits; it never panics.
#[verifier::external_body]
fn find_review_address(owner: &[u8], title: &[u8], program_id: &[u8]) -> (r: Option<
    (Vec<u8>, u8),
>)
    requires
        program_id@.len() == 32,
    ensures
        match r {
            Some(p) => derived_review_address(owner@, title@, program_id@) == Some(
                (p.0@, p.1),
            ) && p.0@.len() == 32,
            None => derived_review_address(owner@, title@, program_id@) is None,
        },
{
    let mut id_bytes = [0u8; 32];
    id_bytes.copy_from_slice(program_id);
    let pid = solana_program::pubkey::Pubkey::new_from_array(id_bytes);
    match solana_program::pubkey::Pubkey::try_find_program_address(&[owner, title], &pid) {
        Some((address, bump)) => Some((address.to_bytes().to_vec(), bump)),
        None => None,
    }
}

/// The standalone derivation entry point: computes the canonical
/// (address, bump) for one owner's review of one title.
pub fn derive_review_address(owner: &Vec<u8>, title: &Vec<u8>, program_id: &Vec<u8>) -> (r:
    Option<(Vec<u8>, u8)>)
    requires
        program_id@.len() == 32,
    ensures
        match r {
            Some(p) => derived_review_address(owner@, title@, program_id@) == Some(
                (p.0@, p.1),
            ) && p.0@.len() == 32,
            None => derived_review_address(owner@, title@, program_id@) is None,
        },
{
    find_review_address(owner.as_slice(), title.as_slice(), program_id.as_slice())
}

/// Determinism law: derivation is a pure function of the seeds and the
/// module id — any two derivations over the same inputs agree.
pub proof fn lemma_derivation_deterministic(
    owner: Seq<u8>,
    title: Seq<u8>,
    program_id: Seq<u8>,
    r1: Option<(Seq<u8>, u8)>,
    r2: Option<(Seq<u8>, u8)>,
)
    requires
        r1 == derived_review_address(owner, title, program_id),
        r2 == derived_review_address(owner, title, program_id),
    ensures
        r1 == r2,
{
}

} // verus!
