use echo::account::Account;
use echo::error::EchoError;
use echo::lifecycle::{
    authorized_echo, finish_create, initialize_authorized_echo, initialize_vending_machine_echo,
    open_write, vending_machine_echo_begin, vending_machine_echo_commit, CreateAction,
};

const PROGRAM_ID: [u8; 32] = [9u8; 32];

fn zero_buffer(key: [u8; 32], capacity: usize) -> Account {
    Account { key, is_signer: false, owner: PROGRAM_ID, data: vec![0u8; capacity] }
}

fn signer(key: [u8; 32]) -> Account {
    Account { key, is_signer: true, owner: [0u8; 32], data: vec![] }
}

/// Runs the creation flow for an authorized buffer the way the engine
/// would: derive, allocate at the derived address, then finish.
fn create_authorized(authority: [u8; 32], seed: u64, capacity: usize) -> (Account, CreateAction) {
    let action = initialize_authorized_echo(&PROGRAM_ID, &[0u8; 32], &authority, seed, capacity as u64)
        .expect("derivation should succeed");
    let mut buffer = zero_buffer(action.derived, capacity);
    finish_create(&mut buffer, &[0u8; 32], &action.derived, action.nonce, action.value)
        .expect("finish_create should succeed at the derived address");
    (buffer, action)
}

/// Same flow for a vending buffer keyed by the mint and the price.
fn create_vending(mint: [u8; 32], price: u64, capacity: usize) -> (Account, CreateAction) {
    let payer = signer([3u8; 32]);
    let action =
        initialize_vending_machine_echo(&PROGRAM_ID, &[0u8; 32], &mint, &payer, price, capacity as u64)
            .expect("derivation should succeed");
    let mut buffer = zero_buffer(action.derived, capacity);
    finish_create(&mut buffer, &[0u8; 32], &action.derived, action.nonce, action.value)
        .expect("finish_create should succeed at the derived address");
    (buffer, action)
}

#[test]
fn open_write_on_non_virgin_fails_unchanged() {
    let mut buffer = zero_buffer([1u8; 32], 16);
    buffer.data[5] = 42;
    let before = buffer.data.clone();
    assert_eq!(open_write(&mut buffer, &vec![1, 2, 3]), Err(EchoError::NotVirgin));
    assert_eq!(buffer.data, before);
}

#[test]
fn open_write_on_zero_length_fails() {
    let mut buffer = zero_buffer([1u8; 32], 0);
    assert_eq!(open_write(&mut buffer, &vec![1, 2, 3]), Err(EchoError::UnallocatedBuffer));
}

#[test]
fn open_write_truncates_long_payload_without_error() {
    let mut buffer = zero_buffer([1u8; 32], 4);
    let r = open_write(&mut buffer, &vec![10, 20, 30, 40, 50, 60]);
    assert_eq!(r, Ok(()));
    assert_eq!(buffer.data, vec![10, 20, 30, 40]);
}

#[test]
fn open_write_leaves_tail_zero() {
    let mut buffer = zero_buffer([1u8; 32], 8);
    assert_eq!(open_write(&mut buffer, &vec![1, 2, 3]), Ok(()));
    assert_eq!(buffer.data, vec![1, 2, 3, 0, 0, 0, 0, 0]);
}

#[test]
fn token_program_identity_bytes() {
    // the well-known token facility address the library's contracts name
    let expected: [u8; 32] = [
        6, 221, 246, 225, 215, 101, 161, 147, 217, 203, 225, 70, 206, 235, 121, 172, 28, 180,
        133, 237, 95, 91, 55, 145, 58, 140, 245, 133, 126, 255, 0, 169,
    ];
    assert_eq!(spl_token::id().to_bytes(), expected);
}

#[test]
fn derivation_is_deterministic() {
    let authority = [4u8; 32];
    let a = initialize_authorized_echo(&PROGRAM_ID, &[0u8; 32], &authority, 7, 64).unwrap();
    let b = initialize_authorized_echo(&PROGRAM_ID, &[0u8; 32], &authority, 7, 64).unwrap();
    assert_eq!(a.derived, b.derived);
    assert_eq!(a.nonce, b.nonce);
    // changing any one input changes the derived address
    let c = initialize_authorized_echo(&PROGRAM_ID, &[0u8; 32], &authority, 8, 64).unwrap();
    assert_ne!(a.derived, c.derived);
    let other_authority = [5u8; 32];
    let d = initialize_authorized_echo(&PROGRAM_ID, &[0u8; 32], &other_authority, 7, 64).unwrap();
    assert_ne!(a.derived, d.derived);
}

#[test]
fn rederivation_with_stored_nonce_matches_search() {
    let id = [4u8; 32];
    let (addr, nonce) =
        echo::pda::derive_address(echo::pda::authority_tag(), &id, 7, &PROGRAM_ID).unwrap();
    let again =
        echo::pda::address_for_nonce(echo::pda::authority_tag(), &id, 7, nonce, &PROGRAM_ID)
            .expect("the found nonce recomputes");
    assert_eq!(addr, again);
}

#[test]
fn assert_with_msg_reflects_its_statement() {
    assert_eq!(echo::account::assert_with_msg(true, EchoError::NotVirgin), Ok(()));
    assert_eq!(
        echo::account::assert_with_msg(false, EchoError::NotVirgin),
        Err(EchoError::NotVirgin)
    );
}

#[test]
fn derived_address_differs_from_inputs() {
    // the derivation must actually transform its inputs, not echo them
    let authority = [4u8; 32];
    let action = initialize_authorized_echo(&PROGRAM_ID, &[0u8; 32], &authority, 7, 64).unwrap();
    assert_ne!(action.derived, authority);
    assert_ne!(action.derived, PROGRAM_ID);
}

#[test]
fn finish_create_rejects_wrong_system_program() {
    let authority = [4u8; 32];
    let action = initialize_authorized_echo(&PROGRAM_ID, &[0u8; 32], &authority, 7, 64).unwrap();
    let mut buffer = zero_buffer(action.derived, 64);
    let bogus_system = [1u8; 32];
    assert_eq!(
        finish_create(&mut buffer, &bogus_system, &action.derived, action.nonce, action.value),
        Err(EchoError::AddressMismatch)
    );
    assert!(buffer.data.iter().all(|b| *b == 0));
}

#[test]
fn finish_create_rejects_forged_target() {
    let authority = [4u8; 32];
    let action = initialize_authorized_echo(&PROGRAM_ID, &[0u8; 32], &authority, 7, 64).unwrap();
    let mut forged = action.derived;
    forged[0] ^= 1;
    let mut buffer = zero_buffer(forged, 64);
    assert_eq!(
        finish_create(&mut buffer, &[0u8; 32], &action.derived, action.nonce, action.value),
        Err(EchoError::AddressMismatch)
    );
}

#[test]
fn authorized_write_scenario_seed_seven() {
    let authority_key = [4u8; 32];
    let (mut buffer, _action) = create_authorized(authority_key, 7, 64);
    let authority = signer(authority_key);
    assert_eq!(authorized_echo(&PROGRAM_ID, &mut buffer, &authority, &vec![1, 2, 3]), Ok(()));
    assert_eq!(&buffer.data[9..12], &[1, 2, 3]);
    assert!(buffer.data[12..].iter().all(|b| *b == 0));
}

#[test]
fn authorized_write_requires_signature_first() {
    // even a buffer too short to hold a header reports the missing
    // signature: the signature check precedes every read of the buffer
    let mut buffer = zero_buffer([1u8; 32], 0);
    let authority = Account { key: [4u8; 32], is_signer: false, owner: [0u8; 32], data: vec![] };
    assert_eq!(
        authorized_echo(&PROGRAM_ID, &mut buffer, &authority, &vec![1]),
        Err(EchoError::MissingSignature)
    );
    let (mut created, _) = create_authorized([4u8; 32], 7, 32);
    let before = created.data.clone();
    assert_eq!(
        authorized_echo(&PROGRAM_ID, &mut created, &authority, &vec![1]),
        Err(EchoError::MissingSignature)
    );
    assert_eq!(created.data, before);
}

#[test]
fn authorized_write_rejects_tampered_buffer_address() {
    let authority_key = [4u8; 32];
    let (mut buffer, _action) = create_authorized(authority_key, 7, 64);
    buffer.key[7] ^= 1;
    let before = buffer.data.clone();
    let authority = signer(authority_key);
    assert_eq!(
        authorized_echo(&PROGRAM_ID, &mut buffer, &authority, &vec![1, 2, 3]),
        Err(EchoError::AddressMismatch)
    );
    assert_eq!(buffer.data, before);
}

#[test]
fn authorized_write_rejects_wrong_authority() {
    let (mut buffer, _action) = create_authorized([4u8; 32], 7, 64);
    let impostor = signer([6u8; 32]);
    assert_eq!(
        authorized_echo(&PROGRAM_ID, &mut buffer, &impostor, &vec![1, 2, 3]),
        Err(EchoError::AddressMismatch)
    );
}

#[test]
fn second_authorized_write_fully_overwrites_first() {
    let authority_key = [4u8; 32];
    let (mut buffer, _action) = create_authorized(authority_key, 7, 64);
    let authority = signer(authority_key);
    assert_eq!(
        authorized_echo(&PROGRAM_ID, &mut buffer, &authority, &vec![9, 9, 9, 9, 9, 9]),
        Ok(())
    );
    assert_eq!(authorized_echo(&PROGRAM_ID, &mut buffer, &authority, &vec![1, 2]), Ok(()));
    assert_eq!(&buffer.data[9..11], &[1, 2]);
    // bytes the first payload reached but the second did not are zeroed
    assert!(buffer.data[11..].iter().all(|b| *b == 0));
}

#[test]
fn vending_write_scenario_price_thousand() {
    let mint = [5u8; 32];
    let (mut buffer, _action) = create_vending(mint, 1000, 32);
    let user = signer([8u8; 32]);
    let user_token = [2u8; 32];
    let token_program = spl_token::id().to_bytes();
    let payload: Vec<u8> = (0u8..40).collect();
    let step = vending_machine_echo_begin(
        &PROGRAM_ID,
        &buffer,
        &user,
        &user_token,
        &mint,
        &token_program,
    )
    .expect("all checks pass");
    // the burn request asks for exactly the stored price
    assert_eq!(step.amount, 1000);
    assert_eq!(step.token_program, token_program);
    assert_eq!(step.source, user_token);
    assert_eq!(step.mint, mint);
    assert_eq!(step.authority, user.key);
    // burn succeeded: commit. Only 32 - 9 = 23 payload bytes fit.
    vending_machine_echo_commit(&mut buffer, &payload);
    assert_eq!(&buffer.data[9..32], &payload[..23]);
}

#[test]
fn vending_write_requires_signature() {
    let mint = [5u8; 32];
    let (buffer, _action) = create_vending(mint, 1000, 32);
    let user = Account { key: [8u8; 32], is_signer: false, owner: [0u8; 32], data: vec![] };
    assert_eq!(
        vending_machine_echo_begin(
            &PROGRAM_ID,
            &buffer,
            &user,
            &[2u8; 32],
            &mint,
            &spl_token::id().to_bytes(),
        )
        .err(),
        Some(EchoError::MissingSignature)
    );
}

#[test]
fn vending_write_rejects_foreign_token_program() {
    let mint = [5u8; 32];
    let (buffer, _action) = create_vending(mint, 1000, 32);
    let user = signer([8u8; 32]);
    let fake_token_program = [7u8; 32];
    assert_eq!(
        vending_machine_echo_begin(&PROGRAM_ID, &buffer, &user, &[2u8; 32], &mint, &fake_token_program)
            .err(),
        Some(EchoError::AddressMismatch)
    );
}

#[test]
fn vending_write_rejects_tampered_buffer_address() {
    let mint = [5u8; 32];
    let (mut buffer, _action) = create_vending(mint, 1000, 32);
    buffer.key[0] ^= 1;
    let user = signer([8u8; 32]);
    assert_eq!(
        vending_machine_echo_begin(
            &PROGRAM_ID,
            &buffer,
            &user,
            &[2u8; 32],
            &mint,
            &spl_token::id().to_bytes(),
        )
        .err(),
        Some(EchoError::AddressMismatch)
    );
}

#[test]
fn failed_burn_leaves_buffer_unchanged() {
    // the pre-burn half never touches the buffer; when the burn fails the
    // commit half is simply never run, so the bytes stay as they were
    let mint = [5u8; 32];
    let (buffer, _action) = create_vending(mint, 1000, 32);
    let before = buffer.data.clone();
    let user = signer([8u8; 32]);
    let _step = vending_machine_echo_begin(
        &PROGRAM_ID,
        &buffer,
        &user,
        &[2u8; 32],
        &mint,
        &spl_token::id().to_bytes(),
    )
    .expect("checks pass");
    // burn reported failure: no commit happens
    assert_eq!(buffer.data, before);
}
