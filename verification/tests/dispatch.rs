use baobao_token::account::Account;
use baobao_token::address::Address;
use baobao_token::error::{DispatchError, LedgerError};
use baobao_token::processor::process_instruction;
use baobao_token::request::{LedgerRequest, RequestAccount};
use spl_token::instruction::{AuthorityType, TokenInstruction};
use spl_token::solana_program::program_option::COption;
use spl_token::solana_program::program_pack::Pack;
use spl_token::solana_program::pubkey::Pubkey;

const LEDGER: [u8; 32] = [
    6, 221, 246, 225, 215, 101, 161, 147, 217, 203, 225, 70, 206, 235, 121, 172, 28, 180, 133,
    237, 95, 91, 55, 145, 58, 140, 245, 133, 126, 255, 0, 169,
];

const RENT: [u8; 32] = [
    6, 167, 213, 23, 25, 44, 92, 81, 33, 140, 201, 76, 61, 74, 241, 127, 88, 218, 238, 8, 155,
    161, 253, 68, 227, 219, 217, 138, 0, 0, 0, 0,
];

const SUPPLY_LE: [u8; 8] = [0, 160, 114, 78, 24, 9, 0, 0];

fn account(fill: u8, is_signer: bool, data: Vec<u8>) -> Account {
    Account { key: Address { bytes: [fill; 32] }, is_signer, data }
}

fn ledger_account() -> Account {
    Account { key: Address { bytes: LEDGER }, is_signer: false, data: Vec::new() }
}

fn genesis_accounts(mint_data: Vec<u8>) -> Vec<Account> {
    vec![ledger_account(), account(1, false, mint_data), account(2, true, Vec::new())]
}

fn transfer_accounts(authority_signed: bool) -> Vec<Account> {
    vec![
        ledger_account(),
        account(1, false, vec![0u8; 101]),
        account(2, false, Vec::new()),
        account(3, false, Vec::new()),
        account(4, false, Vec::new()),
        account(5, authority_signed, Vec::new()),
    ]
}

fn program() -> Address {
    Address { bytes: [9; 32] }
}

fn transfer_payload(amount: u64) -> Vec<u8> {
    let mut payload: Vec<u8> = vec![1u8];
    payload.extend_from_slice(&amount.to_le_bytes());
    payload
}

fn meta(key: [u8; 32], is_signer: bool, is_writable: bool) -> RequestAccount {
    RequestAccount { key: Address { bytes: key }, is_signer, is_writable }
}

fn balance_of(balances: &[([u8; 32], u64)], key: &Address) -> u64 {
    balances.iter().find(|entry| entry.0 == key.bytes).map(|entry| entry.1).unwrap()
}

/// A ledger of balances that carries out a transfer request as the token
/// ledger would: debit the first account, credit the second, if the third
/// signed.
fn deliver(balances: &mut Vec<([u8; 32], u64)>, request: &LedgerRequest) {
    assert_eq!(request.program.bytes, LEDGER);
    let amount: u64 = match TokenInstruction::unpack(&request.data).unwrap() {
        TokenInstruction::Transfer { amount } => amount,
        other => panic!("not a transfer: {:?}", other),
    };
    assert!(request.accounts[2].is_signer);
    let source: [u8; 32] = request.accounts[0].key.bytes;
    let destination: [u8; 32] = request.accounts[1].key.bytes;
    for entry in balances.iter_mut() {
        if entry.0 == source {
            entry.1 -= amount;
        }
    }
    for entry in balances.iter_mut() {
        if entry.0 == destination {
            entry.1 += amount;
        }
    }
}

#[test]
fn genesis_issues_three_requests_in_order() {
    let mut accounts = genesis_accounts(vec![0u8; 101]);
    let requests = process_instruction(&program(), &mut accounts, &[0]).unwrap();
    assert_eq!(requests.len(), 3);

    let mut set_up_data: Vec<u8> = vec![0, 9];
    set_up_data.extend_from_slice(&[2u8; 32]);
    set_up_data.push(0);
    assert_eq!(
        requests[0],
        LedgerRequest {
            program: Address { bytes: LEDGER },
            accounts: vec![meta([1; 32], false, true), meta(RENT, false, false)],
            data: set_up_data,
        }
    );

    let mut mint_all_data: Vec<u8> = vec![7];
    mint_all_data.extend_from_slice(&SUPPLY_LE);
    assert_eq!(
        requests[1],
        LedgerRequest {
            program: Address { bytes: LEDGER },
            accounts: vec![
                meta([1; 32], false, true),
                meta([1; 32], false, true),
                meta([2; 32], true, false),
            ],
            data: mint_all_data,
        }
    );

    let mut lock_data: Vec<u8> = vec![6, 0, 1];
    lock_data.extend_from_slice(&LEDGER);
    assert_eq!(
        requests[2],
        LedgerRequest {
            program: Address { bytes: LEDGER },
            accounts: vec![meta([1; 32], false, true), meta([2; 32], true, false)],
            data: lock_data,
        }
    );
}

#[test]
fn genesis_requests_are_what_the_ledger_reads() {
    let mut accounts = genesis_accounts(vec![0u8; 101]);
    let requests = process_instruction(&program(), &mut accounts, &[0]).unwrap();
    assert_eq!(
        TokenInstruction::unpack(&requests[0].data).unwrap(),
        TokenInstruction::InitializeMint {
            decimals: 9,
            mint_authority: Pubkey::from([2u8; 32]),
            freeze_authority: COption::None,
        }
    );
    assert_eq!(
        TokenInstruction::unpack(&requests[1].data).unwrap(),
        TokenInstruction::MintTo { amount: 10_000_000_000_000 }
    );
    assert_eq!(
        TokenInstruction::unpack(&requests[2].data).unwrap(),
        TokenInstruction::SetAuthority {
            authority_type: AuthorityType::MintTokens,
            new_authority: COption::Some(spl_token::id()),
        }
    );
}

#[test]
fn genesis_rewrites_the_mint_account() {
    let mut accounts = genesis_accounts(vec![0u8; 101]);
    process_instruction(&program(), &mut accounts, &[0]).unwrap();

    let mut expected: Vec<u8> = vec![0u8; 36];
    expected.extend_from_slice(&SUPPLY_LE);
    expected.push(9);
    expected.push(1);
    expected.extend_from_slice(&[0u8; 36]);
    expected.extend_from_slice(b"Bao Bao Panda");
    expected.extend_from_slice(b"BaoBao");
    assert_eq!(expected.len(), 101);
    assert_eq!(accounts[1].data, expected);
    assert_eq!(accounts[0], ledger_account());
    assert_eq!(accounts[1].key, Address { bytes: [1; 32] });
    assert!(!accounts[1].is_signer);
    assert_eq!(accounts[2], account(2, true, Vec::new()));
}

#[test]
fn genesis_leaves_a_locked_mint() {
    let mut accounts = genesis_accounts(vec![0u8; 101]);
    process_instruction(&program(), &mut accounts, &[0]).unwrap();
    let mint = spl_token::state::Mint::unpack(&accounts[1].data[..82]).unwrap();
    assert_eq!(mint.supply, 10_000_000_000_000);
    assert_eq!(mint.decimals, 9);
    assert!(mint.is_initialized);
    assert_eq!(mint.mint_authority, COption::None);
    assert_eq!(mint.freeze_authority, COption::None);
    assert_eq!(&accounts[1].data[82..95], b"Bao Bao Panda");
    assert_eq!(&accounts[1].data[95..101], b"BaoBao");
    assert_eq!(&accounts[1].data[82..101], b"Bao Bao PandaBaoBao");
}

#[test]
fn genesis_keeps_the_bytes_it_does_not_own() {
    let mut data: Vec<u8> = vec![0u8; 120];
    for i in 4..36usize {
        data[i] = 0xaa;
    }
    for i in 50..82usize {
        data[i] = 0xbb;
    }
    for i in 82..120usize {
        data[i] = 0xcc;
    }
    let mut accounts = genesis_accounts(data);
    process_instruction(&program(), &mut accounts, &[0]).unwrap();
    let after = &accounts[1].data;
    assert_eq!(after.len(), 120);
    assert_eq!(&after[0..4], &[0u8, 0, 0, 0]);
    assert_eq!(&after[4..36], &[0xaau8; 32]);
    assert_eq!(&after[36..44], &SUPPLY_LE);
    assert_eq!(&after[44..46], &[9u8, 1]);
    assert_eq!(&after[46..50], &[0u8, 0, 0, 0]);
    assert_eq!(&after[50..82], &[0xbbu8; 32]);
    assert_eq!(&after[82..101], b"Bao Bao PandaBaoBao");
    assert_eq!(&after[101..120], &[0xccu8; 19]);
}

#[test]
fn genesis_revokes_an_authority_found_in_the_mint() {
    let mut data: Vec<u8> = vec![0u8; 101];
    data[0] = 1;
    for i in 4..36usize {
        data[i] = 7;
    }
    data[46] = 1;
    data[44] = 3;
    let mut accounts = genesis_accounts(data);
    process_instruction(&program(), &mut accounts, &[0]).unwrap();
    let mint = spl_token::state::Mint::unpack(&accounts[1].data[..82]).unwrap();
    assert_eq!(mint.mint_authority, COption::None);
    assert_eq!(mint.freeze_authority, COption::None);
    assert_eq!(mint.decimals, 9);
    assert_eq!(&accounts[1].data[4..36], &[7u8; 32]);
}

#[test]
fn genesis_ignores_the_bytes_behind_the_tag() {
    let mut plain = genesis_accounts(vec![0u8; 101]);
    let mut padded = genesis_accounts(vec![0u8; 101]);
    let expected = process_instruction(&program(), &mut plain, &[0]).unwrap();
    let got = process_instruction(&program(), &mut padded, &[0, 1, 2, 3, 255]).unwrap();
    assert_eq!(got, expected);
    assert_eq!(padded, plain);
}

#[test]
fn second_genesis_is_refused() {
    let mut accounts = genesis_accounts(vec![0u8; 101]);
    process_instruction(&program(), &mut accounts, &[0]).unwrap();
    let after_first = accounts.clone();
    let second = process_instruction(&program(), &mut accounts, &[0]);
    assert_eq!(second, Err(DispatchError::AlreadyInitialized));
    assert_eq!(accounts, after_first);
}

#[test]
fn genesis_on_a_mint_with_supply_is_refused() {
    let mut data: Vec<u8> = vec![0u8; 101];
    data[36] = 1;
    let mut accounts = genesis_accounts(data.clone());
    let r = process_instruction(&program(), &mut accounts, &[0]);
    assert_eq!(r, Err(DispatchError::AlreadyInitialized));
    assert_eq!(accounts[1].data, data);

    let mut high: Vec<u8> = vec![0u8; 82];
    high[43] = 0x80;
    let mut accounts = genesis_accounts(high);
    let r = process_instruction(&program(), &mut accounts, &[0]);
    assert_eq!(r, Err(DispatchError::AlreadyInitialized));
}

#[test]
fn genesis_needs_room_for_the_metadata() {
    for len in [82usize, 83, 100] {
        let mut accounts = genesis_accounts(vec![0u8; len]);
        let r = process_instruction(&program(), &mut accounts, &[0]);
        assert_eq!(r, Err(DispatchError::AccountDataTooSmall));
        assert_eq!(accounts[1].data, vec![0u8; len]);
    }
}

#[test]
fn genesis_passes_on_what_the_ledger_says_of_the_state() {
    let invalid = DispatchError::Ledger(LedgerError { code: 0x4_0000_0000 });
    for len in [0usize, 1, 50, 81] {
        let mut accounts = genesis_accounts(vec![0u8; len]);
        let r = process_instruction(&program(), &mut accounts, &[0]);
        assert_eq!(r, Err(invalid));
        assert_eq!(accounts[1].data, vec![0u8; len]);
    }
    for (at, value) in [(0usize, 2u8), (1, 1), (3, 1), (45, 2), (46, 2), (49, 1)] {
        let mut data: Vec<u8> = vec![0u8; 101];
        data[at] = value;
        let mut accounts = genesis_accounts(data.clone());
        let r = process_instruction(&program(), &mut accounts, &[0]);
        assert_eq!(r, Err(invalid));
        assert_eq!(accounts[1].data, data);
    }
}

#[test]
fn transfer_of_500_moves_500_units() {
    let mut accounts = transfer_accounts(true);
    let before = accounts.clone();
    let payload: Vec<u8> = vec![1, 0xf4, 0x01, 0, 0, 0, 0, 0, 0];
    let requests = process_instruction(&program(), &mut accounts, &payload).unwrap();
    assert_eq!(accounts, before);
    assert_eq!(requests.len(), 1);
    assert_eq!(
        requests[0],
        LedgerRequest {
            program: Address { bytes: LEDGER },
            accounts: vec![
                meta([3; 32], false, true),
                meta([4; 32], false, true),
                meta([5; 32], true, false),
            ],
            data: vec![3, 0xf4, 0x01, 0, 0, 0, 0, 0, 0],
        }
    );

    let mut balances: Vec<([u8; 32], u64)> = vec![([3; 32], 1000), ([4; 32], 0), ([6; 32], 77)];
    for request in requests.iter() {
        deliver(&mut balances, request);
    }
    assert_eq!(balance_of(&balances, &Address { bytes: [3; 32] }), 500);
    assert_eq!(balance_of(&balances, &Address { bytes: [4; 32] }), 500);
    assert_eq!(balance_of(&balances, &Address { bytes: [6; 32] }), 77);
}

#[test]
fn transfer_reads_the_amount_little_endian() {
    for amount in [0u64, 1, 255, 256, 500, 0x0102_0304_0506_0708, u64::MAX] {
        let mut accounts = transfer_accounts(true);
        let requests =
            process_instruction(&program(), &mut accounts, &transfer_payload(amount)).unwrap();
        assert_eq!(requests.len(), 1);
        assert_eq!(
            TokenInstruction::unpack(&requests[0].data).unwrap(),
            TokenInstruction::Transfer { amount }
        );
    }
}

#[test]
fn transfer_ignores_the_bytes_behind_the_amount() {
    let mut accounts = transfer_accounts(true);
    let mut payload = transfer_payload(500);
    payload.extend_from_slice(&[9, 9, 9]);
    let requests = process_instruction(&program(), &mut accounts, &payload).unwrap();
    assert_eq!(requests[0].data, vec![3, 0xf4, 0x01, 0, 0, 0, 0, 0, 0]);
}

#[test]
fn unsigned_transfer_is_refused() {
    let mut accounts = transfer_accounts(false);
    let before = accounts.clone();
    let r = process_instruction(&program(), &mut accounts, &transfer_payload(500));
    assert_eq!(r, Err(DispatchError::MissingRequiredSignature));
    assert_eq!(accounts, before);

    let short = process_instruction(&program(), &mut accounts, &[1]);
    assert_eq!(short, Err(DispatchError::MissingRequiredSignature));
}

#[test]
fn unknown_tag_is_refused() {
    for tag in [2u8, 3, 7, 128, 255] {
        let mut accounts = transfer_accounts(true);
        let before = accounts.clone();
        let r = process_instruction(&program(), &mut accounts, &[tag, 0, 0, 0, 0, 0, 0, 0, 0]);
        assert_eq!(r, Err(DispatchError::InvalidInstructionData));
        assert_eq!(accounts, before);
    }
}

#[test]
fn empty_payload_is_refused() {
    let mut accounts = transfer_accounts(true);
    let before = accounts.clone();
    let r = process_instruction(&program(), &mut accounts, &[]);
    assert_eq!(r, Err(DispatchError::InvalidInstructionData));
    assert_eq!(accounts, before);
}

#[test]
fn short_transfer_payload_is_refused() {
    for len in 1..9usize {
        let mut accounts = transfer_accounts(true);
        let before = accounts.clone();
        let mut payload: Vec<u8> = vec![0xffu8; len];
        payload[0] = 1;
        let r = process_instruction(&program(), &mut accounts, &payload);
        assert_eq!(r, Err(DispatchError::InvalidInstructionData));
        assert_eq!(accounts, before);
    }
}

#[test]
fn foreign_ledger_is_refused_whatever_the_payload() {
    let payloads: Vec<Vec<u8>> =
        vec![vec![], vec![0], vec![1], transfer_payload(500), vec![2], vec![255, 1, 2]];
    for payload in payloads.iter() {
        let mut accounts = transfer_accounts(true);
        accounts[0].key = Address { bytes: [6; 32] };
        let before = accounts.clone();
        let r = process_instruction(&program(), &mut accounts, payload);
        assert_eq!(r, Err(DispatchError::IncorrectProgramId));
        assert_eq!(accounts, before);
    }
    let mut nearly = LEDGER;
    nearly[31] = 168;
    let mut accounts = genesis_accounts(vec![0u8; 101]);
    accounts[0].key = Address { bytes: nearly };
    let r = process_instruction(&program(), &mut accounts, &[0]);
    assert_eq!(r, Err(DispatchError::IncorrectProgramId));
}

#[test]
fn the_invoked_program_plays_no_part() {
    let mut first = genesis_accounts(vec![0u8; 101]);
    let mut second = genesis_accounts(vec![0u8; 101]);
    let a = process_instruction(&Address { bytes: [0; 32] }, &mut first, &[0]);
    let b = process_instruction(&Address { bytes: LEDGER }, &mut second, &[0]);
    assert!(a.is_ok());
    assert_eq!(a, b);
    assert_eq!(first, second);
}

#[test]
fn too_few_accounts_are_refused_first() {
    for count in 0..3usize {
        let mut accounts = transfer_accounts(true);
        accounts.truncate(count);
        for payload in [vec![], vec![0u8], vec![2u8], transfer_payload(1)] {
            let r = process_instruction(&program(), &mut accounts, &payload);
            assert_eq!(r, Err(DispatchError::NotEnoughAccountKeys));
            assert_eq!(accounts.len(), count);
        }
    }
    let mut foreign = vec![account(6, false, Vec::new()), account(1, false, Vec::new())];
    let r = process_instruction(&program(), &mut foreign, &[0]);
    assert_eq!(r, Err(DispatchError::NotEnoughAccountKeys));
}

#[test]
fn transfer_needs_six_accounts() {
    for count in 3..6usize {
        let mut accounts = transfer_accounts(true);
        accounts.truncate(count);
        let r = process_instruction(&program(), &mut accounts, &transfer_payload(500));
        assert_eq!(r, Err(DispatchError::NotEnoughAccountKeys));
        let r = process_instruction(&program(), &mut accounts, &[1]);
        assert_eq!(r, Err(DispatchError::NotEnoughAccountKeys));
    }
    let mut seven = transfer_accounts(true);
    seven.push(account(8, false, Vec::new()));
    assert!(process_instruction(&program(), &mut seven, &transfer_payload(500)).is_ok());
}

#[test]
fn accounts_are_bound_by_position_alone() {
    let mut accounts = transfer_accounts(true);
    accounts.swap(3, 4);
    let requests =
        process_instruction(&program(), &mut accounts, &transfer_payload(500)).unwrap();
    assert_eq!(requests[0].accounts[0].key, Address { bytes: [4; 32] });
    assert_eq!(requests[0].accounts[1].key, Address { bytes: [3; 32] });

    let mut misplaced = transfer_accounts(true);
    misplaced.swap(0, 1);
    let r = process_instruction(&program(), &mut misplaced, &transfer_payload(500));
    assert_eq!(r, Err(DispatchError::IncorrectProgramId));
}
