use vstd::prelude::*;
use vstd::assert_seqs_equal;
use solana_program::instruction::{AccountMeta, Instruction};
use solana_program::pubkey::Pubkey;
use spl_token::solana_program::pubkey::Pubkey as TokenPubkey;
use crate::error::EchoError;

verus! {

#[verifier::external_type_specification]
#[verifier::external_body]
pub struct ExInstruction(solana_program::instruction::Instruction);

/// The system allocator's well-known identity: the all-zero address.
pub open spec fn spec_system_program_id() -> Seq<u8> {
    Seq::new(32, |i: int| 0u8)
}

/// The token facility's well-known identity.
pub open spec fn spec_token_program_id() -> Seq<u8> {
    seq![
        6u8,
        221u8,
        246u8,
        225u8,
        215u8,
        101u8,
        161u8,
        147u8,
        217u8,
        203u8,
        225u8,
        70u8,
        206u8,
        235u8,
        121u8,
        172u8,
        28u8,
        180u8,
        133u8,
        237u8,
        95u8,
        91u8,
        55u8,
        145u8,
        58u8,
        140u8,
        245u8,
        133u8,
        126u8,
        255u8,
        0u8,
        169u8,
    ]
}

/// Reports whether `key` is the system allocator's well-known address,
/// which is the all-zero public key.
pub fn is_system_program(key: &[u8; 32]) -> (r: bool)
    ensures
        r <==> key@ == spec_system_program_id(),
{
    let mut i: usize = 0;
    while i < 32
        invariant
            i <= 32,
            forall|j: int| 0 <= j < i ==> key@[j] == 0u8,
        decreases 32 - i,
    {
        if key[i] != 0 {
            assert(key@ != spec_system_program_id());
            return false;
        }
        i = i + 1;
    }
    proof {
        assert_seqs_equal!(key@ == spec_system_program_id());
    }
    true
}

/// Relies on spl_token::ID: the token program's well-known address bytes.
#[verifier::external_body]
pub(crate) fn token_program_id() -> (r: [u8; 32])
    ensures
        r@ == spec_token_program_id(),
{
    spl_token::ID.to_bytes()
}

/// Relies on spl_token::instruction::burn: it only builds (never performs)
/// the burn instruction for the given token program, source account, mint,
/// authority and amount, and it succeeds whenever the declared token
/// program identity is the genuine one.
#[verifier::external_body]
pub(crate) fn build_burn_instruction(
    token_program: &[u8; 32],
    source: &[u8; 32],
    mint: &[u8; 32],
    authority: &[u8; 32],
    amount: u64,
) -> (r: Result<Instruction, EchoError>)
    ensures
        match r {
            Ok(_) => true,
            Err(e) => e == EchoError::CollaboratorFailure && token_program@
                != spec_token_program_id(),
        },
{
    let built = spl_token::instruction::burn(
        &TokenPubkey::new_from_array(*token_program),
        &TokenPubkey::new_from_array(*source),
        &TokenPubkey::new_from_array(*mint),
        &TokenPubkey::new_from_array(*authority),
        &[],
        amount,
    ).map_err(|_| EchoError::CollaboratorFailure)?;
    let accounts = built.accounts.into_iter().map(|m| AccountMeta {
        pubkey: Pubkey::new_from_array(m.pubkey.to_bytes()),
        is_signer: m.is_signer,
        is_writable: m.is_writable,
    }).collect();
    Ok(Instruction { program_id: Pubkey::new_from_array(built.program_id.to_bytes()), accounts, data: built.data })
}

} // verus!
