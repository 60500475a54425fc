//! Program-derived addresses: the address and bump seed that a list of seeds
//! and a program identity determine, and the comparison of a supplied address
//! with them.

use crate::account::pubkey_eq;
use crate::account::Pubkey;
use crate::errors::RWAError;
use vstd::prelude::*;

verus! {

/// Seed tag of the singleton global configuration record.
pub const GLOBAL_CONFIG_SEED: &'static str = "global-config";

/// Seed tag of a creator's identity record, followed by the wallet address.
pub const CREATOR_KYC_SEED: &'static str = "creator-kyc";

/// Seed tag of a token configuration record, followed by the creator address.
pub const TOKEN_CONFIG_SEED: &'static str = "token-program";

/// Seed tag of a token metadata record, followed by the mint address.
pub const METADATA_SEED: &'static str = "metadata";

/// The address and bump seed that the runtime derives from `seeds` for the
/// program `program_id`, or `None` where it finds none. This names the result
/// of pinocchio's `try_find_program_address`; nothing more is said of it here.
pub uninterp spec fn derived_address(seeds: Seq<Seq<u8>>, program_id: Pubkey) -> Option<
    (Pubkey, u8),
>;

/// The seeds as byte strings, in their order.
pub open spec fn seed_bytes(seeds: Seq<&[u8]>) -> Seq<Seq<u8>> {
    Seq::new(seeds.len(), |i: int| seeds[i]@)
}

/// The byte strings that owned seeds hold, in their order.
pub open spec fn owned_seed_bytes(seeds: Seq<Vec<u8>>) -> Seq<Seq<u8>> {
    Seq::new(seeds.len(), |i: int| seeds[i]@)
}

/// Calls `pinocchio::pubkey::try_find_program_address`, which asks the
/// runtime for the derived address of the seeds and returns `None` where the
/// runtime reports none (and always on a target without that runtime). The
/// runtime's answer depends on the seeds and the program identity alone; the
/// contract gives that answer the name `derived_address`.
#[verifier::external_body]
fn try_find_program_address(seeds: &[&[u8]], program_id: &Pubkey) -> (r: Option<(Pubkey, u8)>)
    ensures
        r == derived_address(seed_bytes(seeds@), *program_id),
{
    pinocchio::pubkey::try_find_program_address(seeds, program_id)
}

/// Tells whether `candidate` is the address that a derivation produced.
pub open spec fn matches_derived(candidate: Pubkey, derived: Option<(Pubkey, u8)>) -> bool {
    derived matches Some((address, _)) && address == candidate
}

/// The bump seed of a derivation that produced `candidate`, or the error
/// `mismatch` where the derivation failed or produced another address.
pub open spec fn expect_derived(
    candidate: Pubkey,
    derived: Option<(Pubkey, u8)>,
    mismatch: RWAError,
) -> Result<u8, RWAError> {
    match derived {
        Some((address, bump)) => if address == candidate {
            Ok(bump)
        } else {
            Err(mismatch)
        },
        None => Err(mismatch),
    }
}

/// Derives the address and bump seed of `seeds` for the program `program_id`.
/// The result is a function of the two arguments: equal seeds and an equal
/// program identity give the same address and bump seed on every call.
pub fn find_program_address(seeds: &[&[u8]], program_id: &Pubkey) -> (r: Option<(Pubkey, u8)>)
    ensures
        r == derived_address(seed_bytes(seeds@), *program_id),
{
    try_find_program_address(seeds, program_id)
}

/// Compares a supplied address with the result of a derivation.
pub fn address_matches(candidate: &Pubkey, derived: &Option<(Pubkey, u8)>) -> (r: bool)
    ensures
        r == matches_derived(*candidate, *derived),
{
    match derived {
        Some((address, _)) => pubkey_eq(address, candidate),
        None => false,
    }
}

/// Returns the bump seed of a derivation that produced `candidate`, and
/// `mismatch` where the derivation failed or produced another address.
pub fn expect_address(
    candidate: &Pubkey,
    derived: &Option<(Pubkey, u8)>,
    mismatch: RWAError,
) -> (r: Result<u8, RWAError>)
    ensures
        r == expect_derived(*candidate, *derived, mismatch),
        r is Ok <==> matches_derived(*candidate, *derived),
{
    match derived {
        Some((address, bump)) => {
            if pubkey_eq(address, candidate) {
                Ok(*bump)
            } else {
                Err(mismatch)
            }
        },
        None => Err(mismatch),
    }
}

/// Derives the address of `seeds` anew and compares `candidate` with it.
pub fn verify(candidate: &Pubkey, seeds: &[&[u8]], program_id: &Pubkey) -> (r: bool)
    ensures
        r == matches_derived(*candidate, derived_address(seed_bytes(seeds@), *program_id)),
{
    let derived = try_find_program_address(seeds, program_id);
    address_matches(candidate, &derived)
}

/// Copies seeds into owned byte strings, in their order.
pub fn owned_seeds(seeds: &[&[u8]]) -> (r: Vec<Vec<u8>>)
    ensures
        owned_seed_bytes(r@) == seed_bytes(seeds@),
{
    let mut r: Vec<Vec<u8>> = Vec::new();
    let mut i: usize = 0;
    while i < seeds.len()
        invariant
            i <= seeds.len(),
            r@.len() == i,
            forall|j: int| 0 <= j < i ==> (#[trigger] r@[j])@ == seeds@[j]@,
        decreases seeds.len() - i,
    {
        let seed = vstd::slice::slice_to_vec(seeds[i]);
        r.push(seed);
        i += 1;
    }
    assert(owned_seed_bytes(r@) =~= seed_bytes(seeds@));
    r
}

/// Copies the seeds of a derivation and appends its bump seed: the seeds with
/// which the program signs for the derived address.
pub fn signer_seeds(seeds: &[&[u8]], bump: u8) -> (r: Vec<Vec<u8>>)
    ensures
        owned_seed_bytes(r@) == seed_bytes(seeds@).push(seq![bump]),
{
    let mut r = owned_seeds(seeds);
    let mut last: Vec<u8> = Vec::new();
    last.push(bump);
    assert(last@ =~= seq![bump]);
    r.push(last);
    assert(owned_seed_bytes(r@) =~= seed_bytes(seeds@).push(seq![bump]));
    r
}

/// Derivation is a function: equal seeds and an equal program identity give
/// the same address and the same bump seed.
pub proof fn derivation_is_deterministic(
    seeds_a: Seq<Seq<u8>>,
    program_a: Pubkey,
    seeds_b: Seq<Seq<u8>>,
    program_b: Pubkey,
)
    requires
        seeds_a == seeds_b,
        program_a == program_b,
    ensures
        derived_address(seeds_a, program_a) == derived_address(seeds_b, program_b),
{
}

/// An address that matches a derivation is the derived address: two
/// candidates that both match the same derivation are equal.
pub proof fn matching_addresses_agree(a: Pubkey, b: Pubkey, derived: Option<(Pubkey, u8)>)
    requires
        matches_derived(a, derived),
        matches_derived(b, derived),
    ensures
        a == b,
{
}

} // verus!
