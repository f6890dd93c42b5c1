use echo::account::Account;
use echo::error::EchoError;
use echo::lifecycle::finish_create;
use echo::processor::{Processor, Step};

const PROGRAM_ID: [u8; 32] = [9u8; 32];

fn echo_request(data: &[u8]) -> Vec<u8> {
    let mut v = vec![0u8];
    v.extend_from_slice(&(data.len() as u32).to_le_bytes());
    v.extend_from_slice(data);
    v
}

fn init_authorized_request(seed: u64, size: u64) -> Vec<u8> {
    let mut v = vec![1u8];
    v.extend_from_slice(&seed.to_le_bytes());
    v.extend_from_slice(&size.to_le_bytes());
    v
}

fn authorized_request(data: &[u8]) -> Vec<u8> {
    let mut v = vec![2u8];
    v.extend_from_slice(&(data.len() as u32).to_le_bytes());
    v.extend_from_slice(data);
    v
}

fn init_vending_request(price: u64, size: u64) -> Vec<u8> {
    let mut v = vec![3u8];
    v.extend_from_slice(&price.to_le_bytes());
    v.extend_from_slice(&size.to_le_bytes());
    v
}

fn vending_request(data: &[u8]) -> Vec<u8> {
    let mut v = vec![4u8];
    v.extend_from_slice(&(data.len() as u32).to_le_bytes());
    v.extend_from_slice(data);
    v
}

#[test]
fn dispatch_rejects_undecodable_payload() {
    let mut accounts = vec![];
    assert!(matches!(
        Processor::process_instruction(&PROGRAM_ID, &mut accounts, &[99]),
        Err(EchoError::MalformedInput)
    ));
}

#[test]
fn dispatch_rejects_missing_accounts() {
    let mut accounts = vec![];
    assert!(matches!(
        Processor::process_instruction(&PROGRAM_ID, &mut accounts, &echo_request(&[1])),
        Err(EchoError::MalformedInput)
    ));
}

#[test]
fn dispatch_echo_writes_buffer() {
    let buffer = Account { key: [1u8; 32], is_signer: false, owner: PROGRAM_ID, data: vec![0u8; 6] };
    let mut accounts = vec![buffer];
    let r = Processor::process_instruction(&PROGRAM_ID, &mut accounts, &echo_request(&[1, 2, 3]));
    assert!(matches!(r, Ok(Step::Done)));
    assert_eq!(accounts[0].data, vec![1, 2, 3, 0, 0, 0]);
}

#[test]
fn dispatch_echo_rejects_non_virgin() {
    let buffer =
        Account { key: [1u8; 32], is_signer: false, owner: PROGRAM_ID, data: vec![0, 0, 1, 0] };
    let mut accounts = vec![buffer];
    let r = Processor::process_instruction(&PROGRAM_ID, &mut accounts, &echo_request(&[1]));
    assert!(matches!(r, Err(EchoError::NotVirgin)));
    assert_eq!(accounts[0].data, vec![0, 0, 1, 0]);
}

/// Full authorized life of a buffer, driven through the dispatcher the way
/// the engine would drive it: create with seed 7 and capacity 64, then
/// write `[1, 2, 3]`.
#[test]
fn dispatch_full_authorized_flow() {
    let authority_key = [4u8; 32];
    let system_key = [0u8; 32];
    // creation request: buffer, authority, system allocator
    let placeholder = Account { key: [0u8; 32], is_signer: false, owner: [0u8; 32], data: vec![] };
    let authority =
        Account { key: authority_key, is_signer: true, owner: [0u8; 32], data: vec![] };
    let system = Account { key: system_key, is_signer: false, owner: [0u8; 32], data: vec![] };
    let mut accounts = vec![placeholder, authority, system];
    let step =
        Processor::process_instruction(&PROGRAM_ID, &mut accounts, &init_authorized_request(7, 64))
            .expect("derivation succeeds");
    let action = match step {
        Step::Create(action) => action,
        _ => panic!("expected an allocation request"),
    };
    assert_eq!(action.space, 64);
    assert_eq!(action.funder, authority_key);
    assert_eq!(action.owner, PROGRAM_ID);
    // the signing seeds are the documented domain tag, the authority's
    // identity, the seed in little-endian form, and the nonce
    assert_eq!(action.seeds.len(), 4);
    assert_eq!(action.seeds[0], b"authority".to_vec());
    assert_eq!(action.seeds[1], authority_key.to_vec());
    assert_eq!(action.seeds[2], 7u64.to_le_bytes().to_vec());
    assert_eq!(action.seeds[3], vec![action.nonce]);
    // the engine allocates at the derived address, then the service finishes
    let mut buffer =
        Account { key: action.derived, is_signer: false, owner: PROGRAM_ID, data: vec![0u8; 64] };
    finish_create(&mut buffer, &system_key, &action.derived, action.nonce, action.value)
        .expect("allocation at the derived address passes the checks");
    // authorized write: buffer, authority
    let authority =
        Account { key: authority_key, is_signer: true, owner: [0u8; 32], data: vec![] };
    let mut accounts = vec![buffer, authority];
    let r = Processor::process_instruction(&PROGRAM_ID, &mut accounts, &authorized_request(&[1, 2, 3]));
    assert!(matches!(r, Ok(Step::Done)));
    assert_eq!(&accounts[0].data[9..12], &[1, 2, 3]);
    assert!(accounts[0].data[12..].iter().all(|b| *b == 0));
    // the header survives the write
    assert_eq!(accounts[0].data[0], action.nonce);
    assert_eq!(&accounts[0].data[1..9], &7u64.to_le_bytes());
}

#[test]
fn dispatch_authorized_write_without_signature() {
    let (buffer, _) = make_authorized_buffer();
    let authority = Account { key: [4u8; 32], is_signer: false, owner: [0u8; 32], data: vec![] };
    let before = buffer.data.clone();
    let mut accounts = vec![buffer, authority];
    let r = Processor::process_instruction(&PROGRAM_ID, &mut accounts, &authorized_request(&[1]));
    assert!(matches!(r, Err(EchoError::MissingSignature)));
    assert_eq!(accounts[0].data, before);
}

#[test]
fn dispatch_vending_returns_burn_step_without_touching_buffer() {
    let mint_key = [5u8; 32];
    // create the vending buffer through the dispatcher
    let placeholder = Account { key: [0u8; 32], is_signer: false, owner: [0u8; 32], data: vec![] };
    let mint = Account { key: mint_key, is_signer: false, owner: [0u8; 32], data: vec![] };
    let payer = Account { key: [3u8; 32], is_signer: true, owner: [0u8; 32], data: vec![] };
    let system = Account { key: [0u8; 32], is_signer: false, owner: [0u8; 32], data: vec![] };
    let mut accounts = vec![placeholder, mint, payer, system];
    let step =
        Processor::process_instruction(&PROGRAM_ID, &mut accounts, &init_vending_request(1000, 32))
            .expect("derivation succeeds");
    let action = match step {
        Step::Create(action) => action,
        _ => panic!("expected an allocation request"),
    };
    assert_eq!(action.seeds[0], b"vending_machine".to_vec());
    assert_eq!(action.seeds[1], mint_key.to_vec());
    assert_eq!(action.seeds[2], 1000u64.to_le_bytes().to_vec());
    let mut buffer =
        Account { key: action.derived, is_signer: false, owner: PROGRAM_ID, data: vec![0u8; 32] };
    finish_create(&mut buffer, &[0u8; 32], &action.derived, action.nonce, action.value).unwrap();
    let before = buffer.data.clone();
    // paid write: buffer, user, user's token account, mint, token program
    let user = Account { key: [8u8; 32], is_signer: true, owner: [0u8; 32], data: vec![] };
    let user_token = Account { key: [2u8; 32], is_signer: false, owner: [0u8; 32], data: vec![] };
    let token_program = Account {
        key: spl_token::id().to_bytes(),
        is_signer: false,
        owner: [0u8; 32],
        data: vec![],
    };
    let mint = Account { key: mint_key, is_signer: false, owner: [0u8; 32], data: vec![] };
    let mut accounts = vec![buffer, user, user_token, mint, token_program];
    let payload: Vec<u8> = (100u8..140).collect();
    let r = Processor::process_instruction(&PROGRAM_ID, &mut accounts, &vending_request(&payload));
    let (burn, carried) = match r {
        Ok(Step::Burn(burn, carried)) => (burn, carried),
        _ => panic!("expected a burn request"),
    };
    assert_eq!(burn.amount, 1000);
    assert_eq!(carried, payload);
    // nothing was written before the burn
    assert_eq!(accounts[0].data, before);
}

fn make_authorized_buffer() -> (Account, [u8; 32]) {
    let authority_key = [4u8; 32];
    let action =
        echo::lifecycle::initialize_authorized_echo(&PROGRAM_ID, &[0u8; 32], &authority_key, 7, 64)
            .unwrap();
    let mut buffer =
        Account { key: action.derived, is_signer: false, owner: PROGRAM_ID, data: vec![0u8; 64] };
    finish_create(&mut buffer, &[0u8; 32], &action.derived, action.nonce, action.value).unwrap();
    (buffer, authority_key)
}
