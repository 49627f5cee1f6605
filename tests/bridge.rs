use crossbeam_bridge::{
    process_instruction, settle_instruction, AccountRef, BridgeConfig, BridgeError,
    BridgeInstruction, VaultLedger,
};

const AUTHORITY: [u8; 32] = [7u8; 32];
const USER: [u8; 32] = [1u8; 32];
const VAULT: [u8; 32] = [2u8; 32];
const TOKENS: [u8; 32] = [3u8; 32];

fn config() -> BridgeConfig {
    BridgeConfig { authority: AUTHORITY }
}

fn account(key: [u8; 32], is_signer: bool) -> AccountRef {
    AccountRef { key, is_signer }
}

fn lock_data(amount: u64, chain: &str) -> Vec<u8> {
    let mut data = vec![0u8];
    data.extend_from_slice(&amount.to_le_bytes());
    data.extend_from_slice(chain.as_bytes());
    data
}

fn unlock_data(amount: u64, hash: [u8; 32]) -> Vec<u8> {
    let mut data = vec![1u8];
    data.extend_from_slice(&amount.to_le_bytes());
    data.extend_from_slice(&hash);
    data
}

fn lock_accounts() -> Vec<AccountRef> {
    vec![account(USER, true), account(VAULT, false), account(TOKENS, false)]
}

fn unlock_accounts() -> Vec<AccountRef> {
    vec![account(AUTHORITY, true), account(VAULT, false), account(TOKENS, false)]
}

/// Runs an instruction through both phases with the given transfer outcome.
fn run(
    ledger: &mut VaultLedger,
    accounts: &[AccountRef],
    data: &[u8],
    transferred: bool,
) -> Result<(), BridgeError> {
    let pending = process_instruction(ledger, &config(), accounts, data)?;
    settle_instruction(ledger, pending, transferred).map(|_| ())
}

#[test]
fn decode_lock_polygon() {
    match BridgeInstruction::unpack(&lock_data(50, "polygon")) {
        Ok(BridgeInstruction::LockTokens { amount, target_chain }) => {
            assert_eq!(amount, 50);
            assert_eq!(target_chain, "polygon");
        }
        other => panic!("unexpected {:?}", other),
    }
}

#[test]
fn decode_unlock_short_hash_is_truncated() {
    let mut data = vec![1u8];
    data.extend_from_slice(&400u64.to_le_bytes());
    data.extend_from_slice(&[9u8; 31]);
    assert_eq!(
        BridgeInstruction::unpack(&data).unwrap_err(),
        BridgeError::TruncatedInstruction
    );
}

#[test]
fn decode_unlock_full() {
    let mut hash = [0u8; 32];
    for (i, b) in hash.iter_mut().enumerate() {
        *b = i as u8;
    }
    match BridgeInstruction::unpack(&unlock_data(0x0102_0304_0506_0708, hash)) {
        Ok(BridgeInstruction::UnlockTokens { amount, source_tx_hash }) => {
            assert_eq!(amount, 0x0102_0304_0506_0708);
            assert_eq!(source_tx_hash, hash);
        }
        other => panic!("unexpected {:?}", other),
    }
}

#[test]
fn decode_unlock_ignores_bytes_after_hash() {
    let mut data = unlock_data(5, [4u8; 32]);
    data.extend_from_slice(&[0xee, 0xff]);
    match BridgeInstruction::unpack(&data) {
        Ok(BridgeInstruction::UnlockTokens { amount, source_tx_hash }) => {
            assert_eq!(amount, 5);
            assert_eq!(source_tx_hash, [4u8; 32]);
        }
        other => panic!("unexpected {:?}", other),
    }
}

#[test]
fn decode_empty_is_truncated() {
    assert_eq!(
        BridgeInstruction::unpack(&[]).unwrap_err(),
        BridgeError::TruncatedInstruction
    );
}

#[test]
fn decode_unknown_tag() {
    let mut data = lock_data(1, "eth");
    data[0] = 2;
    assert_eq!(
        BridgeInstruction::unpack(&data).unwrap_err(),
        BridgeError::UnknownInstruction
    );
    assert_eq!(
        BridgeInstruction::unpack(&[255]).unwrap_err(),
        BridgeError::UnknownInstruction
    );
}

#[test]
fn decode_lock_short_amount_is_truncated() {
    assert_eq!(
        BridgeInstruction::unpack(&[0, 1, 2, 3, 4, 5, 6, 7]).unwrap_err(),
        BridgeError::TruncatedInstruction
    );
}

#[test]
fn decode_lock_invalid_text_is_malformed() {
    let mut data = lock_data(10, "");
    data.extend_from_slice(&[0x65, 0xff, 0x74]);
    assert_eq!(
        BridgeInstruction::unpack(&data).unwrap_err(),
        BridgeError::MalformedField
    );
}

#[test]
fn decode_lock_without_destination_is_malformed() {
    assert_eq!(
        BridgeInstruction::unpack(&lock_data(10, "")).unwrap_err(),
        BridgeError::MalformedField
    );
}

#[test]
fn decode_lock_multibyte_destination() {
    let data = lock_data(3, "chaîne-é");
    match BridgeInstruction::unpack(&data) {
        Ok(BridgeInstruction::LockTokens { amount, target_chain }) => {
            assert_eq!(amount, 3);
            assert_eq!(target_chain, "chaîne-é");
        }
        other => panic!("unexpected {:?}", other),
    }
}

#[test]
fn pack_lock_exact_bytes() {
    let ins = BridgeInstruction::LockTokens { amount: 0x0201, target_chain: "eth".to_string() };
    assert_eq!(ins.pack(), vec![0, 0x01, 0x02, 0, 0, 0, 0, 0, 0, b'e', b't', b'h']);
}

#[test]
fn pack_unlock_exact_bytes() {
    let ins = BridgeInstruction::UnlockTokens { amount: 7, source_tx_hash: [0xab; 32] };
    let bytes = ins.pack();
    assert_eq!(bytes.len(), 41);
    assert_eq!(&bytes[..9], &[1, 7, 0, 0, 0, 0, 0, 0, 0]);
    assert_eq!(&bytes[9..], &[0xab; 32]);
}

#[test]
fn unpack_then_pack_round_trips() {
    for data in [
        lock_data(50, "polygon"),
        lock_data(u64::MAX, "chaîne-é"),
        unlock_data(400, [0x5a; 32]),
        unlock_data(0, [0; 32]),
    ] {
        let ins = BridgeInstruction::unpack(&data).unwrap();
        assert_eq!(ins.pack(), data);
        let again = BridgeInstruction::unpack(&ins.pack()).unwrap();
        assert_eq!(again.pack(), data);
    }
}

#[test]
fn zero_amount_is_invalid_for_both_operations() {
    let mut ledger = VaultLedger::new();
    assert_eq!(ledger.apply_lock(0, "eth".to_string(), true).unwrap_err(), BridgeError::InvalidAmount);
    assert_eq!(ledger.apply_unlock(0, [1u8; 32], true).unwrap_err(), BridgeError::InvalidAmount);
    assert_eq!(ledger.locked_balance(), 0);
    assert!(!ledger.is_processed(&[1u8; 32]));

    let mut ledger = VaultLedger::new();
    run(&mut ledger, &lock_accounts(), &lock_data(100, "eth"), true).unwrap();
    assert_eq!(
        run(&mut ledger, &lock_accounts(), &lock_data(0, "eth"), true).unwrap_err(),
        BridgeError::InvalidAmount
    );
    assert_eq!(
        run(&mut ledger, &unlock_accounts(), &unlock_data(0, [1u8; 32]), true).unwrap_err(),
        BridgeError::InvalidAmount
    );
    assert_eq!(ledger.locked_balance(), 100);
    assert!(!ledger.is_processed(&[1u8; 32]));
}

#[test]
fn locked_balance_is_sum_of_locks() {
    let mut ledger = VaultLedger::new();
    let amounts = [5u64, 1000, 77, 1];
    for a in amounts {
        let rec = ledger.apply_lock(a, "eth".to_string(), true).unwrap();
        assert_eq!(rec.amount, a);
        assert_eq!(rec.target_chain, "eth");
        assert_eq!(rec.locked_balance, ledger.locked_balance());
    }
    assert_eq!(ledger.locked_balance(), 1083);
}

#[test]
fn unlock_decrements_and_records_hash() {
    let mut ledger = VaultLedger::new();
    ledger.apply_lock(500, "eth".to_string(), true).unwrap();
    let h = [0x11u8; 32];
    ledger.apply_unlock(500, h, true).unwrap();
    assert_eq!(ledger.locked_balance(), 0);
    assert!(ledger.is_processed(&h));
    assert!(!ledger.is_processed(&[0x12u8; 32]));
}

#[test]
fn replayed_unlock_is_rejected_and_state_kept() {
    let mut ledger = VaultLedger::new();
    ledger.apply_lock(1000, "eth".to_string(), true).unwrap();
    let h = [0x22u8; 32];
    ledger.apply_unlock(100, h, true).unwrap();
    assert_eq!(
        ledger.apply_unlock(100, h, true).unwrap_err(),
        BridgeError::ReplayedTransaction
    );
    assert_eq!(
        ledger.apply_unlock(0, h, false).unwrap_err(),
        BridgeError::ReplayedTransaction
    );
    assert_eq!(ledger.locked_balance(), 900);
    assert!(ledger.is_processed(&h));
}

#[test]
fn lock_then_unlock_then_replay() {
    let mut ledger = VaultLedger::new();
    run(&mut ledger, &lock_accounts(), &lock_data(1000, "eth"), true).unwrap();
    assert_eq!(ledger.locked_balance(), 1000);

    let h = [0x48u8; 32];
    run(&mut ledger, &unlock_accounts(), &unlock_data(400, h), true).unwrap();
    assert_eq!(ledger.locked_balance(), 600);
    assert!(ledger.is_processed(&h));

    assert_eq!(
        run(&mut ledger, &unlock_accounts(), &unlock_data(400, h), true).unwrap_err(),
        BridgeError::ReplayedTransaction
    );
    assert_eq!(ledger.locked_balance(), 600);
}

#[test]
fn lock_without_signer_is_rejected() {
    let mut ledger = VaultLedger::new();
    let accounts = vec![account(USER, false), account(VAULT, false), account(TOKENS, false)];
    assert_eq!(
        run(&mut ledger, &accounts, &lock_data(1000, "eth"), true).unwrap_err(),
        BridgeError::MissingSignature
    );
    assert_eq!(ledger.locked_balance(), 0);
}

#[test]
fn unlock_requires_the_configured_authority() {
    let mut ledger = VaultLedger::new();
    run(&mut ledger, &lock_accounts(), &lock_data(1000, "eth"), true).unwrap();
    let h = [0x33u8; 32];
    let stranger = vec![account(USER, true), account(VAULT, false), account(TOKENS, false)];
    assert_eq!(
        run(&mut ledger, &stranger, &unlock_data(10, h), true).unwrap_err(),
        BridgeError::MissingSignature
    );
    let unsigned = vec![account(AUTHORITY, false), account(VAULT, false), account(TOKENS, false)];
    assert_eq!(
        run(&mut ledger, &unsigned, &unlock_data(10, h), true).unwrap_err(),
        BridgeError::MissingSignature
    );
    assert_eq!(ledger.locked_balance(), 1000);
    assert!(!ledger.is_processed(&h));
}

#[test]
fn missing_accounts_are_rejected() {
    let ledger = VaultLedger::new();
    let two = vec![account(USER, true), account(VAULT, false)];
    assert_eq!(
        process_instruction(&ledger, &config(), &two, &lock_data(5, "eth")).unwrap_err(),
        BridgeError::MissingAccount
    );
    assert_eq!(
        process_instruction(&ledger, &config(), &[], &unlock_data(5, [0; 32])).unwrap_err(),
        BridgeError::MissingAccount
    );
}

#[test]
fn decode_errors_come_before_account_checks() {
    let ledger = VaultLedger::new();
    assert_eq!(
        process_instruction(&ledger, &config(), &[], &[9]).unwrap_err(),
        BridgeError::UnknownInstruction
    );
}

#[test]
fn unlock_beyond_balance_is_rejected() {
    let mut ledger = VaultLedger::new();
    run(&mut ledger, &lock_accounts(), &lock_data(300, "eth"), true).unwrap();
    assert_eq!(
        run(&mut ledger, &unlock_accounts(), &unlock_data(301, [5u8; 32]), true).unwrap_err(),
        BridgeError::InsufficientVaultBalance
    );
    assert_eq!(ledger.locked_balance(), 300);
    run(&mut ledger, &unlock_accounts(), &unlock_data(300, [5u8; 32]), true).unwrap();
    assert_eq!(ledger.locked_balance(), 0);
}

#[test]
fn failed_transfer_changes_nothing_and_can_be_retried() {
    let mut ledger = VaultLedger::new();
    assert_eq!(
        run(&mut ledger, &lock_accounts(), &lock_data(50, "eth"), false).unwrap_err(),
        BridgeError::TransferFailed
    );
    assert_eq!(ledger.locked_balance(), 0);
    run(&mut ledger, &lock_accounts(), &lock_data(50, "eth"), true).unwrap();

    let h = [0x44u8; 32];
    assert_eq!(
        run(&mut ledger, &unlock_accounts(), &unlock_data(20, h), false).unwrap_err(),
        BridgeError::TransferFailed
    );
    assert_eq!(ledger.locked_balance(), 50);
    assert!(!ledger.is_processed(&h));
    run(&mut ledger, &unlock_accounts(), &unlock_data(20, h), true).unwrap();
    assert_eq!(ledger.locked_balance(), 30);
    assert!(ledger.is_processed(&h));
}

#[test]
fn lock_overflowing_the_vault_is_rejected() {
    let mut ledger = VaultLedger::new();
    ledger.apply_lock(u64::MAX - 1, "eth".to_string(), true).unwrap();
    assert_eq!(
        ledger.apply_lock(2, "eth".to_string(), true).unwrap_err(),
        BridgeError::BalanceOverflow
    );
    assert_eq!(ledger.check_lock(1), Ok(()));
    ledger.apply_lock(1, "eth".to_string(), true).unwrap();
    assert_eq!(ledger.locked_balance(), u64::MAX);
}

#[test]
fn transfers_go_the_right_way() {
    let mut ledger = VaultLedger::new();
    let pending =
        process_instruction(&ledger, &config(), &lock_accounts(), &lock_data(9, "eth")).unwrap();
    assert_eq!(pending.transfer.from, TOKENS);
    assert_eq!(pending.transfer.to, VAULT);
    assert_eq!(pending.transfer.amount, 9);
    let record = settle_instruction(&mut ledger, pending, true).unwrap().unwrap();
    assert_eq!(record.locked_balance, 9);
    assert_eq!(record.target_chain, "eth");

    let pending =
        process_instruction(&ledger, &config(), &unlock_accounts(), &unlock_data(4, [1; 32]))
            .unwrap();
    assert_eq!(pending.transfer.from, VAULT);
    assert_eq!(pending.transfer.to, TOKENS);
    assert_eq!(pending.transfer.amount, 4);
    assert!(settle_instruction(&mut ledger, pending, true).unwrap().is_none());
    assert_eq!(ledger.locked_balance(), 5);
}

#[test]
fn check_unlock_reports_without_changing() {
    let mut ledger = VaultLedger::new();
    ledger.apply_lock(10, "eth".to_string(), true).unwrap();
    assert_eq!(ledger.check_unlock(10, &[8; 32]), Ok(()));
    assert_eq!(ledger.check_unlock(11, &[8; 32]), Err(BridgeError::InsufficientVaultBalance));
    assert_eq!(ledger.check_lock(0), Err(BridgeError::InvalidAmount));
    assert_eq!(ledger.locked_balance(), 10);
}

#[test]
fn stored_ledger_round_trips() {
    let mut ledger = VaultLedger::new();
    ledger.apply_lock(1000, "eth".to_string(), true).unwrap();
    ledger.apply_unlock(10, [1u8; 32], true).unwrap();
    ledger.apply_unlock(20, [2u8; 32], true).unwrap();
    let bytes = ledger.to_bytes();
    assert_eq!(bytes.len(), 8 + 2 * 32);
    assert_eq!(&bytes[..8], &970u64.to_le_bytes());
    let back = VaultLedger::from_bytes(&bytes).unwrap();
    assert_eq!(back.locked_balance(), 970);
    assert!(back.is_processed(&[1u8; 32]));
    assert!(back.is_processed(&[2u8; 32]));
    assert!(!back.is_processed(&[3u8; 32]));
    assert_eq!(back.to_bytes(), bytes);
}

#[test]
fn stored_ledger_rejects_bad_bytes() {
    assert_eq!(VaultLedger::from_bytes(&[0; 7]).unwrap_err(), BridgeError::MalformedField);
    assert_eq!(VaultLedger::from_bytes(&[0; 8 + 31]).unwrap_err(), BridgeError::MalformedField);
    let mut dup = vec![0u8; 8];
    dup.extend_from_slice(&[9u8; 32]);
    dup.extend_from_slice(&[9u8; 32]);
    assert_eq!(VaultLedger::from_bytes(&dup).unwrap_err(), BridgeError::MalformedField);
    let empty = VaultLedger::from_bytes(&5u64.to_le_bytes()).unwrap();
    assert_eq!(empty.locked_balance(), 5);
    assert!(!empty.is_processed(&[0u8; 32]));
}
