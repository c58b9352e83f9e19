use enso_temper::evm::Evm;
use enso_temper::evm::ForkInfo;
use enso_temper::overrides::read_slot;
use enso_temper::overrides::AccountInfo;
use enso_temper::overrides::BasicFetch;
use enso_temper::overrides::OverrideError;
use enso_temper::overrides::SlotRead;
use enso_temper::overrides::StorageOverride;
use enso_temper::types::Address;
use enso_temper::types::U256;

fn engine() -> Evm {
    let fork = ForkInfo { block_number: 1, block_timestamp: 2, chain_id: 1 };
    Evm::new(None, "http://localhost:8545".to_string(), None, fork, false, None)
}

fn addr(n: u128) -> Address {
    Address { hi: 0, lo: n }
}

fn word(n: u64) -> U256 {
    U256::from_u64(n)
}

fn base_info() -> AccountInfo {
    AccountInfo { balance: word(5), nonce: 7, code: Some(vec![0x60, 0x00]) }
}

#[test]
fn test_storage_override_diff_semantics() {
    // The account holds s1 = v1 and s2 = v2 in the snapshot; a diff
    // override writes s1 = v9. s1 reads the new value; s2 and the
    // untouched s3 fall through to whatever the snapshot serves.
    let evm = engine();
    let sto = StorageOverride { slots: vec![(word(1), word(9))], diff: true };
    let commit = evm
        .override_account(addr(1), None, None, None, Some(sto), BasicFetch::Known(base_info()))
        .unwrap();
    assert!(!commit.storage_cleared);
    assert_eq!(read_slot(&commit, word(1)), SlotRead::Value(word(9)));
    assert_eq!(read_slot(&commit, word(2)), SlotRead::Fetch);
    assert_eq!(read_slot(&commit, word(3)), SlotRead::Fetch);
}

#[test]
fn test_storage_override_replace_semantics() {
    // The same override with diff = false is authoritative: s1 reads the
    // new value and every other slot, the previously set s2 included,
    // reads zero instead of being fetched.
    let evm = engine();
    let sto = StorageOverride { slots: vec![(word(1), word(9))], diff: false };
    let commit = evm
        .override_account(addr(1), None, None, None, Some(sto), BasicFetch::Known(base_info()))
        .unwrap();
    assert!(commit.storage_cleared);
    assert_eq!(read_slot(&commit, word(1)), SlotRead::Value(word(9)));
    assert_eq!(read_slot(&commit, word(2)), SlotRead::Value(word(0)));
    assert_eq!(read_slot(&commit, word(3)), SlotRead::Value(word(0)));
}

#[test]
fn test_storage_last_assignment_wins() {
    let evm = engine();
    let sto = StorageOverride {
        slots: vec![(word(1), word(9)), (word(1), word(11))],
        diff: true,
    };
    let commit = evm
        .override_account(addr(1), None, None, None, Some(sto), BasicFetch::Absent)
        .unwrap();
    assert_eq!(read_slot(&commit, word(1)), SlotRead::Value(word(11)));
}

#[test]
fn test_override_merges_supplied_fields_only() {
    let evm = engine();
    let commit = evm
        .override_account(
            addr(1),
            Some(word(100)),
            None,
            None,
            None,
            BasicFetch::Known(base_info()),
        )
        .unwrap();
    assert_eq!(commit.info.balance, word(100));
    assert_eq!(commit.info.nonce, 7);
    assert_eq!(commit.info.code, Some(vec![0x60, 0x00]));
    assert!(commit.storage.is_empty());
    assert!(!commit.storage_cleared);
}

#[test]
fn test_override_replaces_code_entirely() {
    let evm = engine();
    let commit = evm
        .override_account(
            addr(1),
            None,
            Some(42),
            Some(vec![0x01]),
            None,
            BasicFetch::Known(base_info()),
        )
        .unwrap();
    assert_eq!(commit.info.nonce, 42);
    assert_eq!(commit.info.code, Some(vec![0x01]));
    assert_eq!(commit.info.balance, word(5));
}

#[test]
fn test_override_of_absent_account_starts_from_nothing() {
    let evm = engine();
    let commit = evm
        .override_account(addr(1), None, None, None, None, BasicFetch::Absent)
        .unwrap();
    assert_eq!(commit.info.balance, word(0));
    assert_eq!(commit.info.nonce, 0);
    assert_eq!(commit.info.code, None);
}

#[test]
fn test_override_fails_when_basic_info_unreadable() {
    let evm = engine();
    let r = evm.override_account(addr(1), Some(word(1)), None, None, None, BasicFetch::Failed);
    assert_eq!(r.unwrap_err(), OverrideError);
}
