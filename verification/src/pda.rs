use vstd::prelude::*;
use vstd::bytes::*;
use vstd::slice::slice_to_vec;
use vstd::assert_seqs_equal;
use crate::error::EchoError;

verus! {

/// The domain tag binding an authority-bound buffer's address to its
/// authority: the bytes of "authority".
pub open spec fn spec_authority_tag() -> Seq<u8> {
    seq![97u8, 117u8, 116u8, 104u8, 111u8, 114u8, 105u8, 116u8, 121u8]
}

/// The domain tag binding a vending buffer's address to its mint: the
/// bytes of "vending_machine".
pub open spec fn spec_vending_tag() -> Seq<u8> {
    seq![
        118u8,
        101u8,
        110u8,
        100u8,
        105u8,
        110u8,
        103u8,
        95u8,
        109u8,
        97u8,
        99u8,
        104u8,
        105u8,
        110u8,
        101u8,
    ]
}

/// The seed list fed to the derivation search: domain tag, a 32-byte
/// identity, and the numeric seed in little-endian order.
pub open spec fn spec_derivation_seeds(tag: Seq<u8>, id: Seq<u8>, seed: u64) -> Seq<Seq<u8>> {
    seq![tag, id, spec_u64_to_le_bytes(seed)]
}

/// The same seed list with the disambiguation nonce appended as a final
/// one-byte seed, the form used to recompute an address without a search.
pub open spec fn spec_with_nonce(seeds: Seq<Seq<u8>>, nonce: u8) -> Seq<Seq<u8>> {
    seeds.push(seq![nonce])
}

/// What the engine's derivation search returns for a seed list and program
/// identity: the derived address and its nonce, or nothing when every
/// nonce value fails. A pure function of its arguments alone.
pub uninterp spec fn found_program_address(seeds: Seq<Seq<u8>>, program_id: Seq<u8>) -> Option<
    (Seq<u8>, u8),
>;

/// What the engine's address recomputation returns for a seed list
/// (nonce included) and program identity: the derived address, or nothing
/// when the candidate is unusable. A pure function of its arguments alone.
pub uninterp spec fn created_program_address(seeds: Seq<Seq<u8>>, program_id: Seq<u8>) -> Option<
    Seq<u8>,
>;

/// The byte strings held by an exec seed list.
pub open spec fn spec_seed_views(seeds: Seq<Vec<u8>>) -> Seq<Seq<u8>> {
    seeds.map_values(|v: Vec<u8>| v@)
}

/// Relies on solana_program::pubkey::Pubkey::try_find_program_address: its
/// result is a function of the seeds and the program id alone, and when it
/// finds an address and nonce, recomputing with that nonce appended yields
/// the same address (the search returns the first nonce for which the
/// recomputation succeeds).
#[verifier::external_body]
fn try_find_program_address(seeds: &Vec<Vec<u8>>, program_id: &[u8; 32]) -> (r: Option<
    ([u8; 32], u8),
>)
    ensures
        match r {
            Some(p) => found_program_address(spec_seed_views(seeds@), program_id@) == Some(
                (p.0@, p.1),
            ) && created_program_address(
                spec_with_nonce(spec_seed_views(seeds@), p.1),
                program_id@,
            ) == Some(p.0@),
            None => found_program_address(spec_seed_views(seeds@), program_id@) is None,
        },
{
    let refs: Vec<&[u8]> = seeds.iter().map(|s| s.as_slice()).collect();
    let program = solana_program::pubkey::Pubkey::new_from_array(*program_id);
    solana_program::pubkey::Pubkey::try_find_program_address(&refs, &program).map(
        |p: (solana_program::pubkey::Pubkey, u8)| (p.0.to_bytes(), p.1),
    )
}

/// Relies on solana_program::pubkey::Pubkey::create_program_address: its
/// result is a function of the seeds and the program id alone.
#[verifier::external_body]
fn try_create_program_address(seeds: &Vec<Vec<u8>>, program_id: &[u8; 32]) -> (r: Option<[u8; 32]>)
    ensures
        match r {
            Some(a) => created_program_address(spec_seed_views(seeds@), program_id@) == Some(a@),
            None => created_program_address(spec_seed_views(seeds@), program_id@) is None,
        },
{
    let refs: Vec<&[u8]> = seeds.iter().map(|s| s.as_slice()).collect();
    let program = solana_program::pubkey::Pubkey::new_from_array(*program_id);
    solana_program::pubkey::Pubkey::create_program_address(&refs, &program).ok().map(
        |k: solana_program::pubkey::Pubkey| k.to_bytes(),
    )
}

/// The exec form of the "authority" domain tag.
pub fn authority_tag() -> (r: Vec<u8>)
    ensures
        r@ == spec_authority_tag(),
{
    let r: Vec<u8> = vec![97u8, 117u8, 116u8, 104u8, 111u8, 114u8, 105u8, 116u8, 121u8];
    proof {
        assert_seqs_equal!(r@ == spec_authority_tag());
    }
    r
}

/// The exec form of the "vending_machine" domain tag.
pub fn vending_tag() -> (r: Vec<u8>)
    ensures
        r@ == spec_vending_tag(),
{
    let r: Vec<u8> = vec![
        118u8,
        101u8,
        110u8,
        100u8,
        105u8,
        110u8,
        103u8,
        95u8,
        109u8,
        97u8,
        99u8,
        104u8,
        105u8,
        110u8,
        101u8,
    ];
    proof {
        assert_seqs_equal!(r@ == spec_vending_tag());
    }
    r
}

/// Builds the executable seed list `[tag, id, seed_le]`.
pub fn derivation_seeds(tag: Vec<u8>, id: &[u8; 32], seed: u64) -> (r: Vec<Vec<u8>>)
    ensures
        spec_seed_views(r@) == spec_derivation_seeds(tag@, id@, seed),
{
    let ghost tag_view = tag@;
    let mut r: Vec<Vec<u8>> = Vec::new();
    r.push(tag);
    r.push(slice_to_vec(id.as_slice()));
    r.push(u64_to_le_bytes(seed));
    proof {
        assert_seqs_equal!(spec_seed_views(r@) == spec_derivation_seeds(tag_view, id@, seed));
    }
    r
}

/// Appends the nonce as a final one-byte seed.
pub fn push_nonce(seeds: &mut Vec<Vec<u8>>, nonce: u8)
    ensures
        spec_seed_views(final(seeds)@) == spec_with_nonce(spec_seed_views(old(seeds)@), nonce),
{
    let one: Vec<u8> = vec![nonce];
    seeds.push(one);
    proof {
        assert_seqs_equal!(
            spec_seed_views(seeds@) == spec_with_nonce(spec_seed_views(old(seeds)@), nonce));
    }
}

/// Searches for the unique nonce and derived address for
/// `tag || id || seed`; exhausting every nonce value is a fatal failure.
pub fn derive_address(tag: Vec<u8>, id: &[u8; 32], seed: u64, program_id: &[u8; 32]) -> (r: Result<
    ([u8; 32], u8),
    EchoError,
>)
    ensures
        match found_program_address(spec_derivation_seeds(tag@, id@, seed), program_id@) {
            Some(p) => r matches Ok(q) && q.0@ == p.0 && q.1 == p.1 && created_program_address(
                spec_with_nonce(spec_derivation_seeds(tag@, id@, seed), p.1),
                program_id@,
            ) == Some(p.0),
            None => r == Err::<([u8; 32], u8), EchoError>(EchoError::CollaboratorFailure),
        },
{
    let seeds = derivation_seeds(tag, id, seed);
    match try_find_program_address(&seeds, program_id) {
        Some(p) => Ok(p),
        None => Err(EchoError::CollaboratorFailure),
    }
}

/// Recomputes the derived address for a previously stored nonce, without
/// repeating the search.
pub fn address_for_nonce(tag: Vec<u8>, id: &[u8; 32], seed: u64, nonce: u8, program_id: &[u8; 32]) -> (r:
    Option<[u8; 32]>)
    ensures
        match created_program_address(
            spec_with_nonce(spec_derivation_seeds(tag@, id@, seed), nonce),
            program_id@,
        ) {
            Some(a) => r matches Some(k) && k@ == a,
            None => r is None,
        },
{
    let mut seeds = derivation_seeds(tag, id, seed);
    push_nonce(&mut seeds, nonce);
    try_create_program_address(&seeds, program_id)
}

/// Derivation is deterministic: the found address and nonce are a function
/// of the domain tag, identity, seed and program identity alone, so two
/// derivations from identical inputs agree.
pub proof fn lemma_derivation_deterministic(
    tag: Seq<u8>,
    id: Seq<u8>,
    seed: u64,
    program_id: Seq<u8>,
    r1: Option<(Seq<u8>, u8)>,
    r2: Option<(Seq<u8>, u8)>,
)
    requires
        r1 == found_program_address(spec_derivation_seeds(tag, id, seed), program_id),
        r2 == found_program_address(spec_derivation_seeds(tag, id, seed), program_id),
    ensures
        r1 == r2,
{
}

} // verus!
