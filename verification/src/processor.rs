use vstd::prelude::*;
use vstd::bytes::{
    spec_u64_from_le_bytes, lemma_auto_spec_u32_to_from_le_bytes,
    lemma_auto_spec_u64_to_from_le_bytes,
};
use vstd::slice::slice_index_get;
use vstd::assert_seqs_equal;
use crate::account::Account;
use crate::error::EchoError;
use crate::instruction::{EchoInstruction, parse_instruction, spec_decodable};
use crate::lifecycle::{
    BurnStep, CreateAction, open_write, authorized_echo, initialize_authorized_echo,
    initialize_vending_machine_echo, vending_machine_echo_begin, spec_open_write_result,
    spec_authorized_write_result, spec_init_authorized_result, spec_init_vending_result,
    spec_vending_begin_result,
};
use crate::state::HEADER_LEN;

verus! {

/// What the caller must still do after a dispatch: nothing, run the
/// allocation facility and then `finish_create`, or perform the burn and
/// then `vending_machine_echo_commit` with the carried payload. The two
/// outstanding steps exist because allocation and burning are external
/// side effects; every check that can fail before them has already passed.
pub enum Step {
    /// The request is complete and any buffer mutation is already done.
    Done,
    /// Run the allocation facility with this request, then `finish_create`.
    Create(CreateAction),
    /// Perform this burn; only if it succeeds, commit the carried payload
    /// with `vending_machine_echo_commit`.
    Burn(BurnStep, Vec<u8>),
}

/// The dispatcher's precondition: for the two write requests that read a
/// stored header, a buffer shorter than the header is a caller error
/// (the account list must be checked before dispatch), except when the
/// missing signature aborts the request before the header is read.
pub open spec fn spec_dispatch_pre(input: Seq<u8>, accounts: Seq<Account>) -> bool {
    &&& (input.len() >= 1 && input[0] == 2 && accounts.len() >= 2 && accounts[1].is_signer
        ==> accounts[0].data@.len() >= HEADER_LEN)
    &&& (input.len() >= 1 && input[0] == 4 && accounts.len() >= 5 && accounts[1].is_signer
        ==> accounts[0].data@.len() >= HEADER_LEN)
}

/// Everything one dispatch guarantees, per decoded request kind: an
/// undecodable payload or a too-short account list is rejected as
/// malformed with no account touched, and otherwise the routed operation's
/// own contract holds, with the dispatcher's `Step` carrying its result.
pub open spec fn spec_dispatch_post(
    program_id: Seq<u8>,
    input: Seq<u8>,
    pre: Seq<Account>,
    post: Seq<Account>,
    r: Result<Step, EchoError>,
) -> bool {
    if !spec_decodable(input) {
        post == pre && r == Err::<Step, EchoError>(EchoError::MalformedInput)
    } else if input[0] == 0 {
        if pre.len() < 1 {
            post == pre && r == Err::<Step, EchoError>(EchoError::MalformedInput)
        } else {
            let payload = input.subrange(5, input.len() as int);
            post.len() == pre.len() && (forall|i: int| 1 <= i < pre.len() ==> post[i] == pre[i])
                && match r {
                Ok(step) => step is Done && spec_open_write_result(
                    pre[0],
                    post[0],
                    payload,
                    Ok(()),
                ),
                Err(e) => spec_open_write_result(pre[0], post[0], payload, Err(e)),
            }
        }
    } else if input[0] == 2 {
        if pre.len() < 2 {
            post == pre && r == Err::<Step, EchoError>(EchoError::MalformedInput)
        } else {
            let payload = input.subrange(5, input.len() as int);
            post.len() == pre.len() && (forall|i: int| 1 <= i < pre.len() ==> post[i] == pre[i])
                && match r {
                Ok(step) => step is Done && spec_authorized_write_result(
                    program_id,
                    pre[0],
                    post[0],
                    pre[1],
                    payload,
                    Ok(()),
                ),
                Err(e) => spec_authorized_write_result(
                    program_id,
                    pre[0],
                    post[0],
                    pre[1],
                    payload,
                    Err(e),
                ),
            }
        }
    } else if input[0] == 1 {
        post == pre && if pre.len() < 3 {
            r == Err::<Step, EchoError>(EchoError::MalformedInput)
        } else {
            let seed = spec_u64_from_le_bytes(input.subrange(1, 9));
            let size = spec_u64_from_le_bytes(input.subrange(9, 17));
            match r {
                Ok(step) => step matches Step::Create(a) && spec_init_authorized_result(
                    program_id,
                    pre[0].key@,
                    pre[1].key@,
                    seed,
                    size,
                    Ok(a),
                ),
                Err(e) => spec_init_authorized_result(
                    program_id,
                    pre[0].key@,
                    pre[1].key@,
                    seed,
                    size,
                    Err(e),
                ),
            }
        }
    } else if input[0] == 3 {
        post == pre && if pre.len() < 4 {
            r == Err::<Step, EchoError>(EchoError::MalformedInput)
        } else {
            let price = spec_u64_from_le_bytes(input.subrange(1, 9));
            let size = spec_u64_from_le_bytes(input.subrange(9, 17));
            match r {
                Ok(step) => step matches Step::Create(a) && spec_init_vending_result(
                    program_id,
                    pre[0].key@,
                    pre[1].key@,
                    pre[2],
                    price,
                    size,
                    Ok(a),
                ),
                Err(e) => spec_init_vending_result(
                    program_id,
                    pre[0].key@,
                    pre[1].key@,
                    pre[2],
                    price,
                    size,
                    Err(e),
                ),
            }
        }
    } else {
        post == pre && if pre.len() < 5 {
            r == Err::<Step, EchoError>(EchoError::MalformedInput)
        } else {
            let payload = input.subrange(5, input.len() as int);
            match r {
                Ok(step) => step matches Step::Burn(b, d) && d@ == payload
                    && spec_vending_begin_result(
                    program_id,
                    pre[0],
                    pre[1],
                    pre[2].key@,
                    pre[3].key@,
                    pre[4].key@,
                    Ok(b),
                ),
                Err(e) => spec_vending_begin_result(
                    program_id,
                    pre[0],
                    pre[1],
                    pre[2].key@,
                    pre[3].key@,
                    pre[4].key@,
                    Err(e),
                ),
            }
        }
    }
}

/// The instruction dispatcher.
pub struct Processor {}

impl Processor {
    /// Decodes the instruction payload and routes it to exactly one
    /// operation. The expected account order is: the buffer first, then
    /// the requester (authority, payer or user), then the remaining
    /// identities the request names.
    pub fn process_instruction(
        program_id: &[u8; 32],
        accounts: &mut Vec<Account>,
        instruction_data: &[u8],
    ) -> (r: Result<Step, EchoError>)
        requires
            spec_dispatch_pre(instruction_data@, old(accounts)@),
        ensures
            spec_dispatch_post(
                program_id@,
                instruction_data@,
                old(accounts)@,
                final(accounts)@,
                r,
            ),
    {
        proof {
            lemma_auto_spec_u32_to_from_le_bytes();
            lemma_auto_spec_u64_to_from_le_bytes();
        }
        let instruction = match parse_instruction(instruction_data) {
            Ok(i) => i,
            Err(e) => {
                return Err(e);
            },
        };
        proof {
            assert(spec_decodable(instruction_data@));
        }
        match instruction {
            EchoInstruction::Echo { data } => {
                proof {
                    assert(instruction_data@[0] == 0);
                    assert_seqs_equal!(
                        data@ == instruction_data@.subrange(5, instruction_data@.len() as int));
                }
                if accounts.len() == 0 {
                    return Err(EchoError::MalformedInput);
                }
                let mut buffer = accounts.remove(0);
                let res = open_write(&mut buffer, &data);
                accounts.insert(0, buffer);
                proof {
                    assert_seqs_equal!(
                        accounts@ == old(accounts)@.update(0, accounts@[0]));
                }
                match res {
                    Ok(_) => Ok(Step::Done),
                    Err(e) => Err(e),
                }
            },
            EchoInstruction::AuthorizedEcho { data } => {
                proof {
                    assert(instruction_data@[0] == 2);
                    assert_seqs_equal!(
                        data@ == instruction_data@.subrange(5, instruction_data@.len() as int));
                }
                if accounts.len() < 2 {
                    return Err(EchoError::MalformedInput);
                }
                let mut buffer = accounts.remove(0);
                let res = authorized_echo(
                    program_id,
                    &mut buffer,
                    slice_index_get(accounts.as_slice(), 0),
                    &data,
                );
                accounts.insert(0, buffer);
                proof {
                    assert_seqs_equal!(
                        accounts@ == old(accounts)@.update(0, accounts@[0]));
                }
                match res {
                    Ok(_) => Ok(Step::Done),
                    Err(e) => Err(e),
                }
            },
            EchoInstruction::InitializeAuthorizedEcho { buffer_seed, buffer_size } => {
                proof {
                    assert(instruction_data@[0] == 1);
                    assert_seqs_equal!(
                        instruction_data@.subrange(1, 9)
                            == vstd::bytes::spec_u64_to_le_bytes(buffer_seed));
                    assert_seqs_equal!(
                        instruction_data@.subrange(9, 17)
                            == vstd::bytes::spec_u64_to_le_bytes(buffer_size));
                }
                if accounts.len() < 3 {
                    return Err(EchoError::MalformedInput);
                }
                let buffer_key = slice_index_get(accounts.as_slice(), 0).key;
                let authority_key = slice_index_get(accounts.as_slice(), 1).key;
                match initialize_authorized_echo(
                    program_id,
                    &buffer_key,
                    &authority_key,
                    buffer_seed,
                    buffer_size,
                ) {
                    Ok(action) => Ok(Step::Create(action)),
                    Err(e) => Err(e),
                }
            },
            EchoInstruction::InitializeVendingMachineEcho { price, buffer_size } => {
                proof {
                    assert(instruction_data@[0] == 3);
                    assert_seqs_equal!(
                        instruction_data@.subrange(1, 9)
                            == vstd::bytes::spec_u64_to_le_bytes(price));
                    assert_seqs_equal!(
                        instruction_data@.subrange(9, 17)
                            == vstd::bytes::spec_u64_to_le_bytes(buffer_size));
                }
                if accounts.len() < 4 {
                    return Err(EchoError::MalformedInput);
                }
                let buffer_key = slice_index_get(accounts.as_slice(), 0).key;
                let mint_key = slice_index_get(accounts.as_slice(), 1).key;
                match initialize_vending_machine_echo(
                    program_id,
                    &buffer_key,
                    &mint_key,
                    slice_index_get(accounts.as_slice(), 2),
                    price,
                    buffer_size,
                ) {
                    Ok(action) => Ok(Step::Create(action)),
                    Err(e) => Err(e),
                }
            },
            EchoInstruction::VendingMachineEcho { data } => {
                proof {
                    assert(instruction_data@[0] == 4);
                    assert_seqs_equal!(
                        data@ == instruction_data@.subrange(5, instruction_data@.len() as int));
                }
                if accounts.len() < 5 {
                    return Err(EchoError::MalformedInput);
                }
                let user_token_key = slice_index_get(accounts.as_slice(), 2).key;
                let mint_key = slice_index_get(accounts.as_slice(), 3).key;
                let token_program_key = slice_index_get(accounts.as_slice(), 4).key;
                match vending_machine_echo_begin(
                    program_id,
                    slice_index_get(accounts.as_slice(), 0),
                    slice_index_get(accounts.as_slice(), 1),
                    &user_token_key,
                    &mint_key,
                    &token_program_key,
                ) {
                    Ok(step) => Ok(Step::Burn(step, data)),
                    Err(e) => Err(e),
                }
            },
        }
    }
}

} // verus!
