use vstd::prelude::*;
use vstd::assert_seqs_equal;
use crate::account::{Account, all_zero, buffer_is_virgin, keys_equal};
use crate::error::EchoError;
use crate::state::{
    HEADER_LEN, spec_header_bytes, spec_header_nonce, spec_header_value, write_header,
    AuthorizedBufferHeader, VendingMachineBufferHeader,
};
use crate::pda::{
    spec_authority_tag, spec_vending_tag, spec_derivation_seeds, spec_with_nonce,
    found_program_address, created_program_address, spec_seed_views, authority_tag, vending_tag,
    derivation_seeds, push_nonce, derive_address, address_for_nonce,
};
use crate::cpi::{
    spec_system_program_id, spec_token_program_id, is_system_program, token_program_id,
    build_burn_instruction,
};

verus! {

/// The fields an operation never touches: everything but the data region.
pub open spec fn spec_meta_unchanged(pre: Account, post: Account) -> bool {
    &&& post.key == pre.key
    &&& post.is_signer == pre.is_signer
    &&& post.owner == pre.owner
}

/// The data region after an open write: the payload laid over the front,
/// truncated to the region's capacity, with every byte past the payload
/// left as it was.
pub open spec fn spec_open_written(orig: Seq<u8>, payload: Seq<u8>) -> Seq<u8> {
    Seq::new(orig.len(), |i: int| if i < payload.len() { payload[i] } else { orig[i] })
}

/// The data region after an authorized or vending write: the 9-byte header
/// kept, then the payload truncated to the remaining capacity, then zeroes
/// (the mandatory zero-fill) to the end.
pub open spec fn spec_body_written(orig: Seq<u8>, payload: Seq<u8>) -> Seq<u8> {
    Seq::new(
        orig.len(),
        |i: int|
            if i < HEADER_LEN {
                orig[i]
            } else if i - HEADER_LEN < payload.len() {
                payload[i - HEADER_LEN]
            } else {
                0u8
            },
    )
}

/// Everything an open write guarantees: which inputs succeed, which error
/// each rejected input gets, and the exact bytes afterwards.
pub open spec fn spec_open_write_result(
    pre: Account,
    post: Account,
    payload: Seq<u8>,
    r: Result<(), EchoError>,
) -> bool {
    &&& spec_meta_unchanged(pre, post)
    &&& match r {
        Ok(_) => pre.data@.len() > 0 && all_zero(pre.data@) && post.data@ == spec_open_written(
            pre.data@,
            payload,
        ),
        Err(e) => post.data@ == pre.data@ && (if pre.data@.len() == 0 {
            e == EchoError::UnallocatedBuffer
        } else {
            !all_zero(pre.data@) && e == EchoError::NotVirgin
        }),
    }
}

/// Unauthenticated write into a fresh buffer. The virgin check is the only
/// integrity guard: anyone can place the first payload into a buffer they
/// can name, a deliberate property of this path, and concurrent callers
/// racing for the same never-yet-written buffer are serialized only by
/// the engine's allocation layer, not here.
pub fn open_write(buffer: &mut Account, payload: &Vec<u8>) -> (r: Result<(), EchoError>)
    ensures
        spec_open_write_result(*old(buffer), *final(buffer), payload@, r),
{
    if buffer.data.len() == 0 {
        return Err(EchoError::UnallocatedBuffer);
    }
    if !buffer_is_virgin(&buffer.data) {
        return Err(EchoError::NotVirgin);
    }
    let mut i: usize = 0;
    while i < payload.len() && i < buffer.data.len()
        invariant
            i <= payload@.len(),
            spec_meta_unchanged(*old(buffer), *buffer),
            buffer.data@.len() == old(buffer).data@.len(),
            forall|j: int| 0 <= j < i ==> buffer.data@[j] == payload@[j],
            forall|j: int| i <= j < buffer.data@.len() ==> buffer.data@[j] == old(
                buffer,
            ).data@[j],
        decreases payload@.len() - i,
    {
        buffer.data[i] = payload[i];
        i = i + 1;
    }
    proof {
        assert_seqs_equal!(buffer.data@ == spec_open_written(old(buffer).data@, payload@));
    }
    Ok(())
}

/// Zero-fills everything after the header, then copies the payload over
/// it, truncated to the remaining capacity.
pub fn commit_payload(data: &mut Vec<u8>, payload: &Vec<u8>)
    requires
        old(data)@.len() >= HEADER_LEN,
    ensures
        final(data)@ == spec_body_written(old(data)@, payload@),
{
    let mut i: usize = HEADER_LEN;
    while i < data.len()
        invariant
            HEADER_LEN <= i <= data@.len(),
            data@.len() == old(data)@.len(),
            old(data)@.len() >= HEADER_LEN,
            forall|j: int| 0 <= j < HEADER_LEN ==> data@[j] == old(data)@[j],
            forall|j: int| HEADER_LEN <= j < i && j < data@.len() ==> data@[j] == 0u8,
            forall|j: int| i <= j < data@.len() ==> data@[j] == old(data)@[j],
        decreases data@.len() - i,
    {
        data[i] = 0;
        i = i + 1;
    }
    let mut k: usize = 0;
    let limit = data.len() - HEADER_LEN;
    while k < limit && k < payload.len()
        invariant
            limit == data@.len() - HEADER_LEN,
            limit + HEADER_LEN <= usize::MAX,
            k <= limit,
            k <= payload@.len(),
            data@.len() == old(data)@.len() >= HEADER_LEN,
            forall|j: int| 0 <= j < HEADER_LEN ==> data@[j] == old(data)@[j],
            forall|j: int|
                HEADER_LEN <= j < HEADER_LEN + k ==> data@[j] == payload@[j - HEADER_LEN],
            forall|j: int| HEADER_LEN + k <= j < data@.len() ==> data@[j] == 0u8,
        decreases limit - k,
    {
        assert(HEADER_LEN + k < data@.len());
        data[HEADER_LEN + k] = payload[k];
        k = k + 1;
    }
    proof {
        assert_seqs_equal!(data@ == spec_body_written(old(data)@, payload@));
    }
}

/// The address an authority-bound buffer must have, recomputed from the
/// authority presented at write time and the witnesses persisted in the
/// buffer's own header.
pub open spec fn spec_authorized_rederived(
    data: Seq<u8>,
    authority_key: Seq<u8>,
    program_id: Seq<u8>,
) -> Option<Seq<u8>> {
    created_program_address(
        spec_with_nonce(
            spec_derivation_seeds(spec_authority_tag(), authority_key, spec_header_value(data)),
            spec_header_nonce(data),
        ),
        program_id,
    )
}

/// Everything an authorized write guarantees: the signature check comes
/// first, re-derivation of the buffer's own address is the sole
/// authentication, and on success the post-header bytes are exactly the
/// payload followed by zeroes.
pub open spec fn spec_authorized_write_result(
    program_id: Seq<u8>,
    pre: Account,
    post: Account,
    authority: Account,
    payload: Seq<u8>,
    r: Result<(), EchoError>,
) -> bool {
    &&& spec_meta_unchanged(pre, post)
    &&& match r {
        Ok(_) => authority.is_signer && spec_authorized_rederived(
            pre.data@,
            authority.key@,
            program_id,
        ) == Some(pre.key@) && post.data@ == spec_body_written(pre.data@, payload),
        Err(e) => post.data@ == pre.data@ && (if !authority.is_signer {
            e == EchoError::MissingSignature
        } else {
            spec_authorized_rederived(pre.data@, authority.key@, program_id) != Some(pre.key@)
                && e == EchoError::AddressMismatch
        }),
    }
}

/// Authenticated write: requires the authority's signature, re-derives the
/// buffer's address from the stored header, and only then overwrites the
/// post-header bytes. Repeat writes are unlimited; each one fully replaces
/// the previous payload.
pub fn authorized_echo(
    program_id: &[u8; 32],
    buffer: &mut Account,
    authority: &Account,
    payload: &Vec<u8>,
) -> (r: Result<(), EchoError>)
    requires
        authority.is_signer ==> old(buffer).data@.len() >= HEADER_LEN,
    ensures
        spec_authorized_write_result(
            program_id@,
            *old(buffer),
            *final(buffer),
            *authority,
            payload@,
            r,
        ),
{
    if !authority.is_signer {
        return Err(EchoError::MissingSignature);
    }
    let header = AuthorizedBufferHeader::read_from(&buffer.data);
    let tag = authority_tag();
    let derived = match address_for_nonce(
        tag,
        &authority.key,
        header.buffer_seed,
        header.bump_seed,
        program_id,
    ) {
        Some(d) => d,
        None => {
            return Err(EchoError::AddressMismatch);
        },
    };
    if !keys_equal(&derived, &buffer.key) {
        return Err(EchoError::AddressMismatch);
    }
    commit_payload(&mut buffer.data, payload);
    Ok(())
}

/// The allocation request handed back to the caller for the external
/// allocation facility, together with the derivation witnesses the
/// follow-up call needs.
pub struct CreateAction {
    /// The identity funding the new account.
    pub funder: [u8; 32],
    /// The caller-declared address the account is to be created at.
    pub target: [u8; 32],
    /// The requested capacity in bytes.
    pub space: u64,
    /// The owning program of the new account: this service.
    pub owner: [u8; 32],
    /// The full derivation seed list, nonce included, that authorizes the
    /// creation on behalf of the derived address.
    pub seeds: Vec<Vec<u8>>,
    /// The derived address the buffer must turn out to have.
    pub derived: [u8; 32],
    /// The disambiguation nonce found by the search.
    pub nonce: u8,
    /// The numeric field to persist in the header: the seed for authorized
    /// buffers, the price for vending buffers.
    pub value: u64,
}

/// Everything the authorized-creation request step guarantees: the action
/// carries exactly the derived address, nonce and seeds for the supplied
/// authority and seed, or the derivation search failed.
pub open spec fn spec_init_authorized_result(
    program_id: Seq<u8>,
    buffer_key: Seq<u8>,
    authority_key: Seq<u8>,
    buffer_seed: u64,
    buffer_size: u64,
    r: Result<CreateAction, EchoError>,
) -> bool {
    match found_program_address(
        spec_derivation_seeds(spec_authority_tag(), authority_key, buffer_seed),
        program_id,
    ) {
        Some(p) => r matches Ok(a) && a.funder@ == authority_key && a.target@ == buffer_key
            && a.space == buffer_size && a.owner@ == program_id && a.derived@ == p.0 && a.nonce
            == p.1 && a.value == buffer_seed && spec_seed_views(a.seeds@) == spec_with_nonce(
            spec_derivation_seeds(spec_authority_tag(), authority_key, buffer_seed),
            p.1,
        ) && created_program_address(spec_seed_views(a.seeds@), program_id) == Some(p.0),
        None => r == Err::<CreateAction, EchoError>(EchoError::CollaboratorFailure),
    }
}

/// First half of authorized-buffer creation: derives the buffer's address
/// from the authority's identity and the numeric seed and assembles the
/// allocation request. The allocation itself and the follow-up checks are
/// `finish_create`'s side of the exchange.
pub fn initialize_authorized_echo(
    program_id: &[u8; 32],
    buffer_key: &[u8; 32],
    authority_key: &[u8; 32],
    buffer_seed: u64,
    buffer_size: u64,
) -> (r: Result<CreateAction, EchoError>)
    ensures
        spec_init_authorized_result(
            program_id@,
            buffer_key@,
            authority_key@,
            buffer_seed,
            buffer_size,
            r,
        ),
{
    let tag = authority_tag();
    let (derived, nonce) = match derive_address(tag, authority_key, buffer_seed, program_id) {
        Ok(p) => p,
        Err(e) => {
            return Err(e);
        },
    };
    let tag_again = authority_tag();
    let mut seeds = derivation_seeds(tag_again, authority_key, buffer_seed);
    push_nonce(&mut seeds, nonce);
    Ok(
        CreateAction {
            funder: *authority_key,
            target: *buffer_key,
            space: buffer_size,
            owner: *program_id,
            seeds,
            derived,
            nonce,
            value: buffer_seed,
        },
    )
}

/// Everything the vending-creation request step guarantees: the payer must
/// have signed, and the action carries the derivation for the mint and
/// price.
pub open spec fn spec_init_vending_result(
    program_id: Seq<u8>,
    buffer_key: Seq<u8>,
    mint_key: Seq<u8>,
    payer: Account,
    price: u64,
    buffer_size: u64,
    r: Result<CreateAction, EchoError>,
) -> bool {
    if !payer.is_signer {
        r == Err::<CreateAction, EchoError>(EchoError::MissingSignature)
    } else {
        match found_program_address(
            spec_derivation_seeds(spec_vending_tag(), mint_key, price),
            program_id,
        ) {
            Some(p) => r matches Ok(a) && a.funder@ == payer.key@ && a.target@ == buffer_key
                && a.space == buffer_size && a.owner@ == program_id && a.derived@ == p.0
                && a.nonce == p.1 && a.value == price && spec_seed_views(a.seeds@)
                == spec_with_nonce(
                spec_derivation_seeds(spec_vending_tag(), mint_key, price),
                p.1,
            ) && created_program_address(spec_seed_views(a.seeds@), program_id) == Some(p.0),
            None => r == Err::<CreateAction, EchoError>(EchoError::CollaboratorFailure),
        }
    }
}

/// First half of vending-buffer creation: the payer must sign, and the
/// buffer's address is derived from the mint's identity and the price, so
/// the buffer belongs to the mint rather than to any one user.
pub fn initialize_vending_machine_echo(
    program_id: &[u8; 32],
    buffer_key: &[u8; 32],
    mint_key: &[u8; 32],
    payer: &Account,
    price: u64,
    buffer_size: u64,
) -> (r: Result<CreateAction, EchoError>)
    ensures
        spec_init_vending_result(
            program_id@,
            buffer_key@,
            mint_key@,
            *payer,
            price,
            buffer_size,
            r,
        ),
{
    if !payer.is_signer {
        return Err(EchoError::MissingSignature);
    }
    let tag = vending_tag();
    let (derived, nonce) = match derive_address(tag, mint_key, price, program_id) {
        Ok(p) => p,
        Err(e) => {
            return Err(e);
        },
    };
    let tag_again = vending_tag();
    let mut seeds = derivation_seeds(tag_again, mint_key, price);
    push_nonce(&mut seeds, nonce);
    Ok(
        CreateAction {
            funder: payer.key,
            target: *buffer_key,
            space: buffer_size,
            owner: *program_id,
            seeds,
            derived,
            nonce,
            value: price,
        },
    )
}

/// Everything the post-allocation step guarantees: both identity checks
/// must pass, and then exactly the 9 header bytes are written, with every
/// byte beyond offset 9 untouched.
pub open spec fn spec_finish_create_result(
    pre: Account,
    post: Account,
    system_program_key: Seq<u8>,
    derived: Seq<u8>,
    nonce: u8,
    value: u64,
    r: Result<(), EchoError>,
) -> bool {
    &&& spec_meta_unchanged(pre, post)
    &&& match r {
        Ok(_) => system_program_key == spec_system_program_id() && derived == pre.key@
            && post.data@.len() == pre.data@.len() && post.data@.subrange(0, 9)
            == spec_header_bytes(nonce, value) && (forall|i: int|
            HEADER_LEN <= i < pre.data@.len() ==> post.data@[i] == pre.data@[i]),
        Err(e) => post.data@ == pre.data@ && e == EchoError::AddressMismatch && (
        system_program_key != spec_system_program_id() || derived != pre.key@),
    }
}

/// Second half of buffer creation, run after the allocation facility has
/// made the account: confirms the declared system allocator is genuine and
/// that the created account sits at the derived address (a mismatch here
/// still fails the whole invocation, which the engine rolls back), then
/// persists the header `{nonce, value}`.
pub fn finish_create(
    buffer: &mut Account,
    system_program_key: &[u8; 32],
    derived: &[u8; 32],
    nonce: u8,
    value: u64,
) -> (r: Result<(), EchoError>)
    requires
        old(buffer).data@.len() >= HEADER_LEN,
    ensures
        spec_finish_create_result(
            *old(buffer),
            *final(buffer),
            system_program_key@,
            derived@,
            nonce,
            value,
            r,
        ),
{
    if !is_system_program(system_program_key) {
        return Err(EchoError::AddressMismatch);
    }
    if !keys_equal(derived, &buffer.key) {
        return Err(EchoError::AddressMismatch);
    }
    write_header(&mut buffer.data, nonce, value);
    Ok(())
}

/// The burn the caller must perform before a vending write commits: the
/// already-built burn instruction plus the plain facts it was built from.
pub struct BurnStep {
    /// The burn instruction for the external token facility.
    pub instruction: solana_program::instruction::Instruction,
    /// The declared token-facility identity (verified genuine).
    pub token_program: [u8; 32],
    /// The user's token account the burn draws from.
    pub source: [u8; 32],
    /// The mint the vending buffer is bound to.
    pub mint: [u8; 32],
    /// The user paying for the write; the burn's signing authority.
    pub authority: [u8; 32],
    /// The exact amount burned per write: the price stored in the header.
    pub amount: u64,
}

/// The address a vending buffer must have, recomputed from the mint
/// presented at write time and the witnesses persisted in the header.
pub open spec fn spec_vending_rederived(
    data: Seq<u8>,
    mint_key: Seq<u8>,
    program_id: Seq<u8>,
) -> Option<Seq<u8>> {
    created_program_address(
        spec_with_nonce(
            spec_derivation_seeds(spec_vending_tag(), mint_key, spec_header_value(data)),
            spec_header_nonce(data),
        ),
        program_id,
    )
}

/// Everything the pre-burn half of a vending write guarantees: the user
/// signed, the buffer's address re-derives from mint and stored header,
/// the token facility is genuine, and the burn request carries exactly the
/// stored price. The buffer is not touched here at all.
pub open spec fn spec_vending_begin_result(
    program_id: Seq<u8>,
    buffer: Account,
    user: Account,
    user_token_key: Seq<u8>,
    mint_key: Seq<u8>,
    token_program_key: Seq<u8>,
    r: Result<BurnStep, EchoError>,
) -> bool {
    match r {
        Ok(step) => user.is_signer && spec_vending_rederived(buffer.data@, mint_key, program_id)
            == Some(buffer.key@) && token_program_key == spec_token_program_id()
            && step.token_program@ == token_program_key && step.source@ == user_token_key
            && step.mint@ == mint_key && step.authority@ == user.key@ && step.amount
            == spec_header_value(buffer.data@),
        Err(e) => if !user.is_signer {
            e == EchoError::MissingSignature
        } else {
            e == EchoError::AddressMismatch && !(spec_vending_rederived(
                buffer.data@,
                mint_key,
                program_id,
            ) == Some(buffer.key@) && token_program_key == spec_token_program_id())
        },
    }
}

/// First half of a paid write: all checks, then the burn request of
/// exactly the stored price. Nothing is written here; the write itself is
/// `vending_machine_echo_commit`, to be run only once the burn succeeded,
/// so a failed burn leaves the buffer byte-for-byte unchanged.
pub fn vending_machine_echo_begin(
    program_id: &[u8; 32],
    buffer: &Account,
    user: &Account,
    user_token_key: &[u8; 32],
    mint_key: &[u8; 32],
    token_program_key: &[u8; 32],
) -> (r: Result<BurnStep, EchoError>)
    requires
        user.is_signer ==> buffer.data@.len() >= HEADER_LEN,
    ensures
        spec_vending_begin_result(
            program_id@,
            *buffer,
            *user,
            user_token_key@,
            mint_key@,
            token_program_key@,
            r,
        ),
{
    if !user.is_signer {
        return Err(EchoError::MissingSignature);
    }
    let header = VendingMachineBufferHeader::read_from(&buffer.data);
    let tag = vending_tag();
    let derived_opt = address_for_nonce(tag, mint_key, header.price, header.bump_seed, program_id);
    let tok = token_program_id();
    if !keys_equal(token_program_key, &tok) {
        return Err(EchoError::AddressMismatch);
    }
    let derived = match derived_opt {
        Some(d) => d,
        None => {
            return Err(EchoError::AddressMismatch);
        },
    };
    if !keys_equal(&derived, &buffer.key) {
        return Err(EchoError::AddressMismatch);
    }
    match build_burn_instruction(token_program_key, user_token_key, mint_key, &user.key, header.price) {
        Ok(instruction) => Ok(
            BurnStep {
                instruction,
                token_program: *token_program_key,
                source: *user_token_key,
                mint: *mint_key,
                authority: user.key,
                amount: header.price,
            },
        ),
        // unreachable: the builder fails only for a token program other
        // than the genuine one, and that was checked just above
        Err(_) => Err(EchoError::CollaboratorFailure),
    }
}

/// Second half of a paid write, run only after the burn succeeded:
/// zero-fills past the header and copies the payload, truncated to the
/// remaining capacity.
pub fn vending_machine_echo_commit(buffer: &mut Account, payload: &Vec<u8>)
    requires
        old(buffer).data@.len() >= HEADER_LEN,
    ensures
        spec_meta_unchanged(*old(buffer), *final(buffer)),
        final(buffer).data@ == spec_body_written(old(buffer).data@, payload@),
{
    commit_payload(&mut buffer.data, payload);
}

/// On a virgin buffer an open write leaves every byte past the payload
/// zero: what "remains" there is the zero fill the virgin check attested.
pub proof fn lemma_open_write_tail_zero(orig: Seq<u8>, payload: Seq<u8>)
    requires
        all_zero(orig),
    ensures
        forall|i: int|
            payload.len() <= i < orig.len() ==> spec_open_written(orig, payload)[i] == 0u8,
{
}

/// A later write fully overwrites an earlier one: writing a second payload
/// after a first leaves exactly the bytes a single write of the second
/// would have left, zero-fill included.
pub proof fn lemma_second_write_overwrites(orig: Seq<u8>, first: Seq<u8>, second: Seq<u8>)
    ensures
        spec_body_written(spec_body_written(orig, first), second) == spec_body_written(
            orig,
            second,
        ),
{
    assert_seqs_equal!(
        spec_body_written(spec_body_written(orig, first), second)
            == spec_body_written(orig, second));
}

} // verus!
