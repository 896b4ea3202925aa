use dephy_io_wallet_demo::addr::{AccountRef, Address, CallAccount};
use dephy_io_wallet_demo::error::WalletError;
use dephy_io_wallet_demo::instruction::{parse_instruction, WalletInstruction};
use dephy_io_wallet_demo::pda::find_vault_pda;
use dephy_io_wallet_demo::processor::{
    check_create, create, process_instruction, proxy_call, system_allocator_address, Action,
    CreateAction, ForwardedCall,
};
use dephy_io_wallet_demo::state::{Key, WalletAccount};

fn addr(byte: u8) -> Address {
    Address::new(vec![byte; 32]).unwrap()
}

fn account(key: &Address, is_signer: bool, is_writable: bool, data: Vec<u8>) -> AccountRef {
    AccountRef { key: key.dup(), is_signer, is_writable, data }
}

/// A toy ledger: balances by address. A transfer payload is eight
/// little-endian amount bytes; the forwarded call's first account pays, the
/// second receives, and the payer must carry the signer flag.
fn apply_transfer(balances: &mut Vec<([u8; 32], u64)>, call: &ForwardedCall) {
    assert_eq!(call.payload.len(), 8);
    let amount = u64::from_le_bytes(call.payload.as_slice().try_into().unwrap());
    let from: [u8; 32] = call.accounts[0].key.bytes.as_slice().try_into().unwrap();
    let to: [u8; 32] = call.accounts[1].key.bytes.as_slice().try_into().unwrap();
    assert!(call.accounts[0].is_signer, "the paying account must sign");
    for entry in balances.iter_mut() {
        if entry.0 == from {
            entry.1 -= amount;
        }
    }
    for entry in balances.iter_mut() {
        if entry.0 == to {
            entry.1 += amount;
        }
    }
}

fn balance_of(balances: &[([u8; 32], u64)], key: &Address) -> u64 {
    let k: [u8; 32] = key.bytes.as_slice().try_into().unwrap();
    balances.iter().find(|e| e.0 == k).map(|e| e.1).unwrap_or(0)
}

#[test]
fn test_wallet() {
    let program_id = addr(7);
    let authority_key = addr(42);
    let payer_key = addr(9);

    let (wallet_key, _wallet_bump) =
        WalletAccount::find_pda(&authority_key, &program_id).expect("wallet derivation");
    let (vault_key, vault_bump) =
        find_vault_pda(&wallet_key, &program_id).expect("vault derivation");

    // Create the wallet.
    let action = create(
        &account(&wallet_key, false, true, Vec::new()),
        &account(&authority_key, true, false, Vec::new()),
        &account(&vault_key, false, false, Vec::new()),
        &account(&payer_key, true, true, Vec::new()),
        &account(&system_allocator_address(), false, false, Vec::new()),
        &program_id,
    )
    .expect("create");
    let record = match action {
        CreateAction::CreateWallet { record, .. } => record,
        CreateAction::AlreadyExists => panic!("the wallet slot was empty"),
    };
    assert_eq!(record.key, Key::Wallet);
    assert_eq!(record.authority.bytes, authority_key.bytes);
    assert_eq!(record.vault.bytes, vault_key.bytes);
    assert_eq!(record.vault_bump, vault_bump);

    // Persist the record; its stored form has the fixed layout's size.
    let wallet_data = record.to_bytes();
    assert_eq!(wallet_data.len(), WalletAccount::LEN);

    // Fund the vault with 10 units.
    let vault_bytes: [u8; 32] = vault_key.bytes.as_slice().try_into().unwrap();
    let dest_key = addr(200);
    let dest_bytes: [u8; 32] = dest_key.bytes.as_slice().try_into().unwrap();
    let mut balances = vec![(vault_bytes, 10u64), (dest_bytes, 0u64)];

    // Forward "transfer 1 unit from the vault to dest", co-signed by the
    // authority. The vault is supplied without the signer flag; the proxy
    // must force it on.
    let payload = 1u64.to_le_bytes().to_vec();
    let remaining = vec![
        account(&vault_key, false, true, Vec::new()),
        account(&dest_key, false, true, Vec::new()),
    ];
    let call = proxy_call(
        &account(&wallet_key, false, false, wallet_data.clone()),
        &account(&authority_key, true, false, Vec::new()),
        &account(&vault_key, false, false, Vec::new()),
        &account(&dest_key, false, false, Vec::new()),
        &remaining,
        payload.clone(),
    )
    .expect("proxy call");
    assert!(call.accounts[0].is_signer);
    apply_transfer(&mut balances, &call);
    assert_eq!(balance_of(&balances, &vault_key), 9);
    assert_eq!(balance_of(&balances, &dest_key), 1);

    // The same forwarded call with a different signer is rejected and the
    // balances stay as they were.
    let other_signer = addr(43);
    let rejected = proxy_call(
        &account(&wallet_key, false, false, wallet_data),
        &account(&other_signer, true, false, Vec::new()),
        &account(&vault_key, false, false, Vec::new()),
        &account(&dest_key, false, false, Vec::new()),
        &remaining,
        payload,
    );
    assert_eq!(rejected.unwrap_err(), WalletError::MissingSigner);
    assert_eq!(balance_of(&balances, &vault_key), 9);
}

#[test]
fn test_derivation_deterministic() {
    let program_id = addr(7);
    let authority_key = addr(42);
    let first = WalletAccount::find_pda(&authority_key, &program_id).expect("derivation");
    let second = WalletAccount::find_pda(&authority_key, &program_id).expect("derivation");
    assert_eq!(first.0.bytes, second.0.bytes);
    assert_eq!(first.1, second.1);
    // The derivation really derives: 32 bytes, and not its own inputs.
    assert_eq!(first.0.bytes.len(), 32);
    assert_ne!(first.0.bytes, authority_key.bytes);
    let (vault, _) = find_vault_pda(&first.0, &program_id).expect("derivation");
    assert_ne!(vault.bytes, first.0.bytes);
}

#[test]
fn test_record_round_trip() {
    let record = WalletAccount {
        key: Key::Wallet,
        authority: addr(1),
        vault: addr(2),
        vault_bump: 255,
    };
    let bytes = record.to_bytes();
    let mut expected = vec![1u8];
    expected.extend(vec![1u8; 32]);
    expected.extend(vec![2u8; 32]);
    expected.push(255);
    assert_eq!(bytes, expected);
    let back = WalletAccount::from_bytes(&bytes).expect("parse");
    assert_eq!(back.key, Key::Wallet);
    assert_eq!(back.authority.bytes, record.authority.bytes);
    assert_eq!(back.vault.bytes, record.vault.bytes);
    assert_eq!(back.vault_bump, record.vault_bump);
}

#[test]
fn test_load_rejects_bad_records() {
    // Wrong length.
    let r = WalletAccount::from_bytes(&vec![1u8; 65]);
    assert_eq!(r.unwrap_err(), WalletError::InvalidAccountData);
    // Unknown record-kind tag.
    let mut bytes = vec![2u8];
    bytes.extend(vec![0u8; 65]);
    let r = WalletAccount::from_bytes(&bytes);
    assert_eq!(r.unwrap_err(), WalletError::InvalidAccountData);
    // An uninitialized record parses, and a proxy call then rejects it.
    let mut bytes = vec![0u8];
    bytes.extend(vec![0u8; 65]);
    let rec = WalletAccount::from_bytes(&bytes).expect("parse");
    assert_eq!(rec.key, Key::Uninitialized);
    let r = proxy_call(
        &account(&addr(1), false, false, bytes),
        &account(&addr(0), true, false, Vec::new()),
        &account(&addr(2), false, false, Vec::new()),
        &account(&addr(3), false, false, Vec::new()),
        &Vec::new(),
        Vec::new(),
    );
    assert_eq!(r.unwrap_err(), WalletError::InvalidAccountData);
}

#[test]
fn test_create_missing_signer() {
    let expected_wallet = addr(10);
    let expected_vault = addr(11);
    let r = check_create(
        &account(&expected_wallet, false, true, Vec::new()),
        &account(&addr(42), false, false, Vec::new()),
        &account(&expected_vault, false, false, Vec::new()),
        &account(&addr(9), true, true, Vec::new()),
        &account(&system_allocator_address(), false, false, Vec::new()),
        &expected_wallet,
        254,
        &expected_vault,
        253,
    );
    assert_eq!(r.unwrap_err(), WalletError::MissingSigner);
}

#[test]
fn test_create_invalid_vault_derivation() {
    let expected_wallet = addr(10);
    let expected_vault = addr(11);
    let r = check_create(
        &account(&expected_wallet, false, true, Vec::new()),
        &account(&addr(42), true, false, Vec::new()),
        &account(&addr(99), false, false, Vec::new()),
        &account(&addr(9), true, true, Vec::new()),
        &account(&system_allocator_address(), false, false, Vec::new()),
        &expected_wallet,
        254,
        &expected_vault,
        253,
    );
    assert_eq!(r.unwrap_err(), WalletError::InvalidDerivation);
}

#[test]
fn test_create_rejects_unwritable_payer_and_wrong_allocator() {
    let expected_wallet = addr(10);
    let expected_vault = addr(11);
    let r = check_create(
        &account(&expected_wallet, false, true, Vec::new()),
        &account(&addr(42), true, false, Vec::new()),
        &account(&expected_vault, false, false, Vec::new()),
        &account(&addr(9), true, false, Vec::new()),
        &account(&system_allocator_address(), false, false, Vec::new()),
        &expected_wallet,
        254,
        &expected_vault,
        253,
    );
    assert_eq!(r.unwrap_err(), WalletError::NotWritable);
    let r = check_create(
        &account(&expected_wallet, false, true, Vec::new()),
        &account(&addr(42), true, false, Vec::new()),
        &account(&expected_vault, false, false, Vec::new()),
        &account(&addr(9), true, true, Vec::new()),
        &account(&addr(33), false, false, Vec::new()),
        &expected_wallet,
        254,
        &expected_vault,
        253,
    );
    assert_eq!(r.unwrap_err(), WalletError::WrongAllocator);
}

#[test]
fn test_create_idempotent() {
    let program_id = addr(7);
    let authority_key = addr(42);
    let payer_key = addr(9);
    let (wallet_key, _) =
        WalletAccount::find_pda(&authority_key, &program_id).expect("wallet derivation");
    let (vault_key, _) = find_vault_pda(&wallet_key, &program_id).expect("vault derivation");

    let first = create(
        &account(&wallet_key, false, true, Vec::new()),
        &account(&authority_key, true, false, Vec::new()),
        &account(&vault_key, false, false, Vec::new()),
        &account(&payer_key, true, true, Vec::new()),
        &account(&system_allocator_address(), false, false, Vec::new()),
        &program_id,
    )
    .expect("create");
    let record = match first {
        CreateAction::CreateWallet { record, .. } => record,
        CreateAction::AlreadyExists => panic!("the wallet slot was empty"),
    };

    // The second create sees the populated slot and asks for nothing.
    let second = create(
        &account(&wallet_key, false, true, record.to_bytes()),
        &account(&authority_key, true, false, Vec::new()),
        &account(&vault_key, false, false, Vec::new()),
        &account(&payer_key, true, true, Vec::new()),
        &account(&system_allocator_address(), false, false, Vec::new()),
        &program_id,
    )
    .expect("create again");
    assert!(matches!(second, CreateAction::AlreadyExists));
}

#[test]
fn test_proxy_missing_signer() {
    let record = WalletAccount {
        key: Key::Wallet,
        authority: addr(42),
        vault: addr(2),
        vault_bump: 251,
    };
    let wallet_data = record.to_bytes();
    // The right authority, but it did not sign.
    let r = proxy_call(
        &account(&addr(1), false, false, wallet_data.clone()),
        &account(&addr(42), false, false, Vec::new()),
        &account(&addr(2), false, false, Vec::new()),
        &account(&addr(3), false, false, Vec::new()),
        &Vec::new(),
        Vec::new(),
    );
    assert_eq!(r.unwrap_err(), WalletError::MissingSigner);
    // A signer, but not the stored authority.
    let r = proxy_call(
        &account(&addr(1), false, false, wallet_data),
        &account(&addr(43), true, false, Vec::new()),
        &account(&addr(2), false, false, Vec::new()),
        &account(&addr(3), false, false, Vec::new()),
        &Vec::new(),
        Vec::new(),
    );
    assert_eq!(r.unwrap_err(), WalletError::MissingSigner);
}

#[test]
fn test_proxy_forces_only_the_vault_flag() {
    let vault_key = addr(2);
    let record = WalletAccount {
        key: Key::Wallet,
        authority: addr(42),
        vault: vault_key.dup(),
        vault_bump: 251,
    };
    let remaining = vec![
        account(&vault_key, false, true, Vec::new()),
        account(&addr(50), true, false, Vec::new()),
        account(&addr(51), false, false, Vec::new()),
        account(&vault_key, false, false, Vec::new()),
    ];
    let call = proxy_call(
        &account(&addr(1), false, false, record.to_bytes()),
        &account(&addr(42), true, false, Vec::new()),
        &account(&vault_key, false, false, Vec::new()),
        &account(&addr(3), false, false, Vec::new()),
        &remaining,
        vec![9, 8, 7],
    )
    .expect("proxy call");
    assert_eq!(call.target.bytes, addr(3).bytes);
    assert_eq!(call.payload, vec![9, 8, 7]);
    assert_eq!(call.accounts.len(), 4);
    let flags: Vec<bool> = call.accounts.iter().map(|a: &CallAccount| a.is_signer).collect();
    assert_eq!(flags, vec![true, true, false, true]);
    for (forwarded, supplied) in call.accounts.iter().zip(remaining.iter()) {
        assert_eq!(forwarded.key.bytes, supplied.key.bytes);
        assert_eq!(forwarded.is_writable, supplied.is_writable);
    }
    let writables: Vec<bool> = call.accounts.iter().map(|a: &CallAccount| a.is_writable).collect();
    assert_eq!(writables, vec![true, false, false, false]);
    // The delegated signing proof is the vault's seeds: tag, wallet, bump.
    assert_eq!(call.signer_seeds.len(), 3);
    assert_eq!(call.signer_seeds[0], b"VAULT".to_vec());
    assert_eq!(call.signer_seeds[1], addr(1).bytes);
    assert_eq!(call.signer_seeds[2], vec![251]);
}

#[test]
fn test_save_writes_the_record_prefix() {
    let record = WalletAccount {
        key: Key::Wallet,
        authority: addr(1),
        vault: addr(2),
        vault_bump: 250,
    };
    // A roomier buffer keeps its trailing bytes.
    let mut account = account(&addr(5), false, true, vec![9u8; 70]);
    record.save(&mut account).expect("save");
    assert_eq!(account.data.len(), 70);
    assert_eq!(account.data[..66], record.to_bytes()[..]);
    assert_eq!(account.data[66..], [9u8, 9, 9, 9]);
    // Loading the roomier slot back reproduces the identical record: the
    // trailing bytes are ignored.
    let back = WalletAccount::load(&account).expect("load");
    assert_eq!(back.key, Key::Wallet);
    assert_eq!(back.authority.bytes, record.authority.bytes);
    assert_eq!(back.vault.bytes, record.vault.bytes);
    assert_eq!(back.vault_bump, record.vault_bump);
    // A buffer too short for the record is refused untouched.
    let mut short = account_short(&addr(5));
    assert_eq!(record.save(&mut short).unwrap_err(), WalletError::SerializationError);
    assert_eq!(short.data, vec![9u8; 65]);
}

fn account_short(key: &Address) -> AccountRef {
    account(key, false, true, vec![9u8; 65])
}

#[test]
fn test_parse_instruction_cases() {
    assert_eq!(
        parse_instruction(&Vec::new()).unwrap_err(),
        WalletError::InvalidInstructionData
    );
    let (ix, payload) = parse_instruction(&vec![0]).expect("create selector");
    assert_eq!(ix, WalletInstruction::Create);
    assert!(payload.is_empty());
    assert_eq!(
        parse_instruction(&vec![0, 1]).unwrap_err(),
        WalletError::InvalidInstructionData
    );
    let (ix, payload) = parse_instruction(&vec![1, 5, 6]).expect("proxy selector");
    assert_eq!(ix, WalletInstruction::ProxyCall);
    assert_eq!(payload, vec![5, 6]);
    assert_eq!(
        parse_instruction(&vec![2]).unwrap_err(),
        WalletError::InvalidInstructionData
    );
}

#[test]
fn test_process_instruction_dispatch() {
    let program_id = addr(7);
    let authority_key = addr(42);
    let (wallet_key, _) =
        WalletAccount::find_pda(&authority_key, &program_id).expect("wallet derivation");
    let (vault_key, _) = find_vault_pda(&wallet_key, &program_id).expect("vault derivation");

    let accounts = vec![
        account(&wallet_key, false, true, Vec::new()),
        account(&authority_key, true, false, Vec::new()),
        account(&vault_key, false, false, Vec::new()),
        account(&addr(9), true, true, Vec::new()),
        account(&system_allocator_address(), false, false, Vec::new()),
    ];
    let action = process_instruction(&program_id, accounts, &vec![0]).expect("create dispatch");
    assert!(matches!(action, Action::Create(CreateAction::CreateWallet { .. })));

    let too_few = vec![account(&wallet_key, false, true, Vec::new())];
    let r = process_instruction(&program_id, too_few, &vec![0]);
    assert_eq!(r.unwrap_err(), WalletError::NotEnoughAccounts);

    let record = WalletAccount {
        key: Key::Wallet,
        authority: authority_key.dup(),
        vault: vault_key.dup(),
        vault_bump: 251,
    };
    let accounts = vec![
        account(&wallet_key, false, false, record.to_bytes()),
        account(&authority_key, true, false, Vec::new()),
        account(&vault_key, false, false, Vec::new()),
        account(&addr(3), false, false, Vec::new()),
        account(&vault_key, false, true, Vec::new()),
        account(&addr(200), false, true, Vec::new()),
    ];
    let action =
        process_instruction(&program_id, accounts, &vec![1, 77]).expect("proxy dispatch");
    match action {
        Action::Forward(call) => {
            assert_eq!(call.payload, vec![77]);
            assert_eq!(call.accounts.len(), 2);
            assert!(call.accounts[0].is_signer);
            assert!(!call.accounts[1].is_signer);
        },
        Action::Create(_) => panic!("expected a forwarded call"),
    }
}
