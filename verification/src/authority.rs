//! Derivation of a position's signing authority: a deterministic,
//! unforgeable address computed from the record identity, together with a
//! proof (the bump seed) that lets any party re-verify the address offline.
//! No private key exists for such an address; the derivation itself is the
//! capability. The verification step is run before privileged operations
//! act on a record's custody.

use vstd::prelude::*;

verus! {

/// What the bump-seed search returns for given seeds and program id: the
/// derived address and the bump that yields it, or nothing in the
/// statistically improbable case that no bump works.
pub uninterp spec fn derived_authority(seeds: Seq<Seq<u8>>, program: Seq<u8>) -> Option<
    (Seq<u8>, u8),
>;

/// What the single-shot derivation returns for given seeds and program id:
/// the derived address, or nothing when a seed is over-long or the
/// derivation lands on the curve.
pub uninterp spec fn created_address(seeds: Seq<Seq<u8>>, program: Seq<u8>) -> Option<Seq<u8>>;

/// Relies on solana_pubkey::Pubkey::try_find_program_address: a
/// deterministic search, from the seeds and the program id alone, over
/// bump seeds for a valid derived address; the pair it returns is exactly
/// the one that create_program_address reproduces when the bump is
/// appended as one more single-byte seed.
#[verifier::external_body]
fn find_program_address(seeds: &Vec<Vec<u8>>, program: &[u8; 32]) -> (r: Option<([u8; 32], u8)>)
    ensures
        (match r {
            Some(p) => Some((p.0@, p.1)),
            None => None::<(Seq<u8>, u8)>,
        }) == derived_authority(seeds.deep_view(), program@),
        r matches Some(p) ==> created_address(seeds.deep_view().push(seq![p.1]), program@)
            == Some(p.0@),
{
    let seed_refs: Vec<&[u8]> = seeds.iter().map(|s| s.as_slice()).collect();
    let program_id = solana_pubkey::Pubkey::new_from_array(*program);
    solana_pubkey::Pubkey::try_find_program_address(&seed_refs, &program_id)
        .map(|(address, bump)| (address.to_bytes(), bump))
}

/// Relies on solana_pubkey::Pubkey::create_program_address: a pure
/// derivation from the seeds and the program id alone; it rejects
/// over-long seeds and derivations that land on the curve.
#[verifier::external_body]
fn create_program_address(seeds: &Vec<Vec<u8>>, program: &[u8; 32]) -> (r: Option<[u8; 32]>)
    ensures
        (match r {
            Some(address) => Some(address@),
            None => None::<Seq<u8>>,
        }) == created_address(seeds.deep_view(), program@),
{
    let seed_refs: Vec<&[u8]> = seeds.iter().map(|s| s.as_slice()).collect();
    let program_id = solana_pubkey::Pubkey::new_from_array(*program);
    match solana_pubkey::Pubkey::create_program_address(&seed_refs, &program_id) {
        Ok(address) => Some(address.to_bytes()),
        Err(_) => None,
    }
}

/// The seed that scopes every authority this library derives: the ASCII
/// bytes of "position".
pub open spec fn seed_prefix() -> Seq<u8> {
    seq![112u8, 111u8, 115u8, 105u8, 116u8, 105u8, 111u8, 110u8]
}

/// The eight little-endian bytes of a record identity, the second seed.
pub open spec fn identity_seed(identity: u64) -> Seq<u8> {
    seq![
        (identity & 0xff) as u8,
        ((identity >> 8) & 0xff) as u8,
        ((identity >> 16) & 0xff) as u8,
        ((identity >> 24) & 0xff) as u8,
        ((identity >> 32) & 0xff) as u8,
        ((identity >> 40) & 0xff) as u8,
        ((identity >> 48) & 0xff) as u8,
        ((identity >> 56) & 0xff) as u8,
    ]
}

/// Both seeds of a position's authority, in order.
pub open spec fn authority_seeds(identity: u64) -> Seq<Seq<u8>> {
    seq![seed_prefix(), identity_seed(identity)]
}

fn seed_prefix_bytes() -> (r: Vec<u8>)
    ensures
        r@ == seed_prefix(),
{
    let mut v: Vec<u8> = Vec::new();
    v.push(112);
    v.push(111);
    v.push(115);
    v.push(105);
    v.push(116);
    v.push(105);
    v.push(111);
    v.push(110);
    proof {
        assert(v@ =~= seed_prefix());
    }
    v
}

fn identity_seed_bytes(identity: u64) -> (r: Vec<u8>)
    ensures
        r@ == identity_seed(identity),
{
    proof {
        assert(identity & 0xff <= 0xff) by (bit_vector);
        assert((identity >> 8) & 0xff <= 0xff) by (bit_vector);
        assert((identity >> 16) & 0xff <= 0xff) by (bit_vector);
        assert((identity >> 24) & 0xff <= 0xff) by (bit_vector);
        assert((identity >> 32) & 0xff <= 0xff) by (bit_vector);
        assert((identity >> 40) & 0xff <= 0xff) by (bit_vector);
        assert((identity >> 48) & 0xff <= 0xff) by (bit_vector);
        assert((identity >> 56) & 0xff <= 0xff) by (bit_vector);
    }
    let mut v: Vec<u8> = Vec::new();
    v.push((identity & 0xff) as u8);
    v.push(((identity >> 8) & 0xff) as u8);
    v.push(((identity >> 16) & 0xff) as u8);
    v.push(((identity >> 24) & 0xff) as u8);
    v.push(((identity >> 32) & 0xff) as u8);
    v.push(((identity >> 40) & 0xff) as u8);
    v.push(((identity >> 48) & 0xff) as u8);
    v.push(((identity >> 56) & 0xff) as u8);
    proof {
        assert(v@ =~= identity_seed(identity));
    }
    v
}

/// Derives the per-position authority address and its proof (the bump
/// seed) from the record identity alone. Deriving per position, rather
/// than one global authority, limits the blast radius of any compromise
/// to a single record. `None` is the statistically improbable failure of
/// the bump search; callers surface it as an external failure.
pub fn derive_authority(identity: u64, program: &[u8; 32]) -> (r: Option<([u8; 32], u8)>)
    ensures
        (match r {
            Some(p) => Some((p.0@, p.1)),
            None => None::<(Seq<u8>, u8)>,
        }) == derived_authority(authority_seeds(identity), program@),
        r matches Some(p) ==> created_address(authority_seeds(identity).push(seq![p.1]), program@)
            == Some(p.0@),
{
    let mut seeds: Vec<Vec<u8>> = Vec::new();
    seeds.push(seed_prefix_bytes());
    seeds.push(identity_seed_bytes(identity));
    proof {
        assert(seeds.deep_view() =~~= authority_seeds(identity));
    }
    find_program_address(&seeds, program)
}

/// Re-verifies offline that `address` under proof `bump` is the authority
/// derived for `identity`: appending the proof as one more seed must
/// reproduce the address exactly. A mismatch is a fatal authorization
/// error for whatever operation relied on it.
pub fn verify_authority(address: &[u8; 32], bump: u8, identity: u64, program: &[u8; 32]) -> (r:
    bool)
    ensures
        r == (created_address(authority_seeds(identity).push(seq![bump]), program@) == Some(
            address@,
        )),
{
    let mut seeds: Vec<Vec<u8>> = Vec::new();
    seeds.push(seed_prefix_bytes());
    seeds.push(identity_seed_bytes(identity));
    let mut bump_seed: Vec<u8> = Vec::new();
    bump_seed.push(bump);
    seeds.push(bump_seed);
    proof {
        assert(seeds.deep_view() =~~= authority_seeds(identity).push(seq![bump]));
    }
    match create_program_address(&seeds, program) {
        None => false,
        Some(derived) => bytes32_eq(&derived, address),
    }
}

/// Derivation and offline verification never disagree: whenever an
/// authority can be derived for `identity` at all, the derived address
/// under its own proof passes `verify_authority`. Returns whether one
/// could be derived.
pub fn derivation_verifies(identity: u64, program: &[u8; 32]) -> (r: bool)
    ensures
        r == (derived_authority(authority_seeds(identity), program@) is Some),
{
    match derive_authority(identity, program) {
        None => false,
        Some((address, bump)) => verify_authority(&address, bump, identity, program),
    }
}

/// Field-by-field comparison of two 32-byte addresses.
fn bytes32_eq(a: &[u8; 32], b: &[u8; 32]) -> (r: bool)
    ensures
        r == (a@ == b@),
{
    let mut i: usize = 0;
    while i < 32
        invariant
            0 <= i <= 32,
            forall|j: int| 0 <= j < i ==> a@[j] == b@[j],
        decreases 32 - i,
    {
        if a[i] != b[i] {
            return false;
        }
        i += 1;
    }
    proof {
        assert(a@ =~= b@);
    }
    true
}

} // verus!
