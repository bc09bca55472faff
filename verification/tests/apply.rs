use memory_backend::backend::memory::{MemoryAccount, MemoryBackend, MemoryVicinity, TxReceipt};
use memory_backend::backend::{Apply, ApplyBackend, Backend, Basic, Log};
use memory_backend::primitives::{H160, H256, U256};
use std::collections::{BTreeMap, BTreeSet};

const A: H160 = (0, 0xa);
const B: H160 = (0, 0xb);
const C: H160 = (7, 0xc);
const K: H256 = (0, 0x4b);
const K2: H256 = (1, 0);
const ZERO: H256 = (0, 0);

fn word(n: u64) -> U256 {
    (0, 0, 0, n)
}

fn hash(n: u128) -> H256 {
    (0, n)
}

fn vicinity_at(block_number: u64) -> MemoryVicinity {
    MemoryVicinity {
        gas_price: word(1),
        origin: (0, 0xabc),
        chain_id: word(1),
        block_hashes: vec![],
        block_number: word(block_number),
        block_coinbase: (0, 0xc01),
        block_timestamp: word(1_600_000_000),
        block_difficulty: word(2),
        block_gas_limit: word(8_000_000),
    }
}

fn modify(address: H160, balance: u64, nonce: u64) -> Apply {
    Apply::Modify {
        address,
        basic: Basic { balance: word(balance), nonce: word(nonce) },
        code: None,
        storage: vec![],
        reset_storage: false,
    }
}

fn write(address: H160, storage: Vec<(H256, H256)>, reset_storage: bool) -> Apply {
    Apply::Modify {
        address,
        basic: Basic { balance: word(1), nonce: word(1) },
        code: None,
        storage,
        reset_storage,
    }
}

fn with_code(address: H160, code: Option<Vec<u8>>) -> Apply {
    Apply::Modify {
        address,
        basic: Basic { balance: word(1), nonce: word(0) },
        code,
        storage: vec![],
        reset_storage: false,
    }
}

fn account(balance: u64, nonce: u64, slots: Vec<(H256, H256)>, code: Vec<u8>) -> MemoryAccount {
    MemoryAccount {
        nonce: word(nonce),
        balance: word(balance),
        storage: slots.into_iter().collect(),
        code,
        created: false,
    }
}

fn state_of(accounts: Vec<(H160, MemoryAccount)>) -> BTreeMap<H160, MemoryAccount> {
    accounts.into_iter().collect()
}

fn log(address: H160, byte: u8) -> Log {
    Log { address, topics: vec![hash(byte as u128)], data: vec![byte] }
}

fn receipt(tx: H256, gas_used: usize, status: usize) -> TxReceipt {
    TxReceipt {
        hash: tx,
        caller: A,
        to: Some(B),
        block_number: word(100),
        cumulative_gas_used: gas_used + 1,
        gas_used,
        contract_addresses: BTreeSet::new(),
        logs: vec![log(A, 1)],
        status,
    }
}

fn changes(backend: &mut MemoryBackend, block: u64, values: Vec<Apply>, delete_empty: bool) {
    backend.apply(word(block), values, vec![], vec![], BTreeSet::new(), delete_empty);
}

#[test]
fn tip_modify_updates_live_state_and_not_the_archive() {
    let v = vicinity_at(100);
    let mut backend = MemoryBackend::new(&v, BTreeMap::new());
    changes(&mut backend, 100, vec![modify(A, 5, 0)], false);
    assert_eq!(backend.basic(A), Basic { balance: word(5), nonce: word(0) });
    assert_eq!(backend.state().len(), 1);
    assert_eq!(backend.state().get(&A), Some(&account(5, 0, vec![], vec![])));
    assert!(backend.archive_state().is_empty());
}

#[test]
fn non_tip_modify_lands_in_the_archive_only() {
    let v = vicinity_at(100);
    let mut backend = MemoryBackend::new(&v, BTreeMap::new());
    changes(&mut backend, 99, vec![modify(B, 5, 3)], false);
    assert_eq!(backend.basic(B), Basic { balance: word(0), nonce: word(0) });
    assert!(!backend.account_exists(B));
    assert!(backend.state().is_empty());
    assert_eq!(backend.archive_state().len(), 1);
    let snapshot = backend.archive_state().get(&word(99)).unwrap();
    assert_eq!(snapshot.len(), 1);
    assert_eq!(snapshot.get(&B), Some(&account(5, 3, vec![], vec![])));
}

#[test]
fn archive_snapshot_starts_empty_and_not_from_live_state() {
    let v = vicinity_at(100);
    let mut backend = MemoryBackend::new(&v, state_of(vec![(A, account(9, 9, vec![], vec![]))]));
    changes(&mut backend, 42, vec![modify(B, 1, 1)], false);
    let snapshot = backend.archive_state().get(&word(42)).unwrap();
    assert!(!snapshot.contains_key(&A));
    assert!(snapshot.contains_key(&B));
    assert_eq!(backend.basic(A), Basic { balance: word(9), nonce: word(9) });
}

#[test]
fn archive_modify_starts_from_archived_account() {
    let v = vicinity_at(100);
    let mut backend = MemoryBackend::new(
        &v,
        state_of(vec![(A, account(9, 9, vec![(K, hash(3))], vec![1, 2]))]),
    );
    changes(&mut backend, 42, vec![write(A, vec![(K2, hash(8))], false)], false);
    changes(&mut backend, 42, vec![with_code(A, None)], false);
    let archived = backend.archive_state().get(&word(42)).unwrap().get(&A).unwrap();
    assert_eq!(archived, &account(1, 0, vec![(K2, hash(8))], vec![]));
    assert_eq!(backend.state().get(&A), Some(&account(9, 9, vec![(K, hash(3))], vec![1, 2])));
}

#[test]
fn snapshots_of_other_blocks_are_left_alone() {
    let v = vicinity_at(100);
    let mut backend = MemoryBackend::new(&v, BTreeMap::new());
    changes(&mut backend, 41, vec![modify(A, 1, 1)], false);
    changes(&mut backend, 42, vec![modify(A, 2, 2), modify(B, 3, 3)], false);
    assert_eq!(backend.archive_state().len(), 2);
    let first = backend.archive_state().get(&word(41)).unwrap();
    assert_eq!(first.len(), 1);
    assert_eq!(first.get(&A), Some(&account(1, 1, vec![], vec![])));
    let second = backend.archive_state().get(&word(42)).unwrap();
    assert_eq!(second.get(&A), Some(&account(2, 2, vec![], vec![])));
    assert_eq!(second.get(&B), Some(&account(3, 3, vec![], vec![])));
}

#[test]
fn block_numbers_differing_in_a_high_limb_are_different_blocks() {
    let v = vicinity_at(100);
    let mut backend = MemoryBackend::new(&v, BTreeMap::new());
    backend.apply((1, 0, 0, 100), vec![modify(A, 5, 0)], vec![], vec![], BTreeSet::new(), false);
    assert!(backend.state().is_empty());
    assert!(backend.archive_state().contains_key(&(1, 0, 0, 100)));
}

#[test]
fn zero_value_removes_a_stored_slot() {
    let v = vicinity_at(100);
    let mut backend =
        MemoryBackend::new(&v, state_of(vec![(A, account(1, 1, vec![(K, hash(7))], vec![]))]));
    assert_eq!(backend.storage(A, K), hash(7));
    changes(&mut backend, 100, vec![write(A, vec![(K, ZERO)], false)], false);
    assert_eq!(backend.storage(A, K), ZERO);
    assert!(!backend.state().get(&A).unwrap().storage.contains_key(&K));
    assert!(backend.state().get(&A).unwrap().storage.is_empty());
}

#[test]
fn zero_slots_held_before_are_dropped_when_the_account_is_modified() {
    let v = vicinity_at(100);
    let mut backend = MemoryBackend::new(
        &v,
        state_of(vec![(A, account(1, 1, vec![(K, ZERO), (K2, hash(2)), (hash(9), ZERO)], vec![]))]),
    );
    changes(&mut backend, 100, vec![modify(A, 1, 1)], false);
    let storage = &backend.state().get(&A).unwrap().storage;
    assert_eq!(storage.len(), 1);
    assert_eq!(storage.get(&K2), Some(&hash(2)));
}

#[test]
fn no_written_slot_holds_zero_after_apply() {
    let v = vicinity_at(100);
    let mut backend = MemoryBackend::new(&v, BTreeMap::new());
    let entries = vec![(hash(1), hash(10)), (hash(2), ZERO), (hash(3), hash(30)), (hash(3), ZERO)];
    changes(&mut backend, 100, vec![write(A, entries.clone(), false)], false);
    changes(&mut backend, 99, vec![write(A, entries, false)], false);
    let live = &backend.state().get(&A).unwrap().storage;
    let archived = &backend.archive_state().get(&word(99)).unwrap().get(&A).unwrap().storage;
    for storage in [live, archived] {
        assert!(storage.values().all(|value| *value != ZERO));
        assert_eq!(storage.len(), 1);
        assert_eq!(storage.get(&hash(1)), Some(&hash(10)));
    }
}

#[test]
fn an_account_that_no_instruction_names_keeps_its_zero_slot() {
    let v = vicinity_at(100);
    let mut backend =
        MemoryBackend::new(&v, state_of(vec![(B, account(1, 1, vec![(K, ZERO)], vec![]))]));
    changes(&mut backend, 100, vec![modify(A, 1, 1)], false);
    assert_eq!(backend.state().get(&B).unwrap().storage.get(&K), Some(&ZERO));
    assert_eq!(backend.storage(B, K), ZERO);
}

#[test]
fn later_write_to_a_slot_wins() {
    let v = vicinity_at(100);
    let mut backend = MemoryBackend::new(&v, BTreeMap::new());
    let entries = vec![(K, hash(1)), (K2, ZERO), (K, ZERO), (K2, hash(5)), (K, hash(3))];
    changes(&mut backend, 100, vec![write(A, entries, false)], false);
    assert_eq!(backend.storage(A, K), hash(3));
    assert_eq!(backend.storage(A, K2), hash(5));
}

#[test]
fn reset_storage_discards_slots_before_writing() {
    let v = vicinity_at(100);
    let mut backend = MemoryBackend::new(
        &v,
        state_of(vec![(A, account(1, 1, vec![(K, hash(7)), (K2, hash(8))], vec![]))]),
    );
    changes(&mut backend, 100, vec![write(A, vec![(hash(5), hash(6))], true)], false);
    let storage = &backend.state().get(&A).unwrap().storage;
    assert_eq!(storage.len(), 1);
    assert_eq!(storage.get(&hash(5)), Some(&hash(6)));
    assert_eq!(backend.storage(A, K), ZERO);
}

#[test]
fn without_reset_other_slots_stay() {
    let v = vicinity_at(100);
    let mut backend = MemoryBackend::new(
        &v,
        state_of(vec![(A, account(1, 1, vec![(K, hash(7)), (K2, hash(8))], vec![]))]),
    );
    changes(&mut backend, 100, vec![write(A, vec![(K, hash(9))], false)], false);
    assert_eq!(backend.storage(A, K), hash(9));
    assert_eq!(backend.storage(A, K2), hash(8));
}

#[test]
fn prune_removes_an_account_that_comes_out_empty() {
    let v = vicinity_at(100);
    let mut backend = MemoryBackend::new(
        &v,
        state_of(vec![(A, account(4, 2, vec![(K, hash(7))], vec![])), (B, account(1, 0, vec![], vec![]))]),
    );
    changes(&mut backend, 100, vec![modify(A, 0, 0)], true);
    assert!(!backend.account_exists(A));
    assert!(!backend.state().contains_key(&A));
    assert!(backend.account_exists(B));
}

#[test]
fn prune_removes_a_fresh_empty_account() {
    let v = vicinity_at(100);
    let mut backend = MemoryBackend::new(&v, BTreeMap::new());
    changes(&mut backend, 100, vec![modify(A, 0, 0)], true);
    assert!(backend.state().is_empty());
}

#[test]
fn without_prune_the_empty_account_stays_queryable() {
    let v = vicinity_at(100);
    let mut backend =
        MemoryBackend::new(&v, state_of(vec![(A, account(4, 2, vec![(K, hash(7))], vec![]))]));
    changes(&mut backend, 100, vec![modify(A, 0, 0)], false);
    assert!(backend.account_exists(A));
    assert_eq!(backend.basic(A), Basic { balance: word(0), nonce: word(0) });
    assert_eq!(backend.storage(A, K), hash(7));
    assert_eq!(backend.state().get(&A), Some(&account(0, 0, vec![(K, hash(7))], vec![])));
}

#[test]
fn prune_keeps_accounts_with_balance_nonce_or_code() {
    let v = vicinity_at(100);
    let mut backend = MemoryBackend::new(&v, BTreeMap::new());
    let values = vec![
        modify(A, 1, 0),
        modify(B, 0, 1),
        Apply::Modify {
            address: C,
            basic: Basic { balance: word(0), nonce: word(0) },
            code: Some(vec![0x60]),
            storage: vec![],
            reset_storage: false,
        },
    ];
    changes(&mut backend, 100, values, true);
    assert!(backend.account_exists(A));
    assert!(backend.account_exists(B));
    assert!(backend.account_exists(C));
}

#[test]
fn prune_counts_every_limb_of_the_balance() {
    let v = vicinity_at(100);
    let mut backend = MemoryBackend::new(&v, BTreeMap::new());
    let rich = Apply::Modify {
        address: A,
        basic: Basic { balance: (1, 0, 0, 0), nonce: word(0) },
        code: None,
        storage: vec![],
        reset_storage: false,
    };
    changes(&mut backend, 100, vec![rich], true);
    assert!(backend.account_exists(A));
    assert_eq!(backend.basic(A).balance, (1, 0, 0, 0));
}

#[test]
fn prune_of_an_account_with_storage_only_removes_it() {
    let v = vicinity_at(100);
    let mut backend = MemoryBackend::new(&v, BTreeMap::new());
    let values = vec![Apply::Modify {
        address: A,
        basic: Basic { balance: word(0), nonce: word(0) },
        code: None,
        storage: vec![(K, hash(1))],
        reset_storage: false,
    }];
    changes(&mut backend, 100, values, true);
    assert!(!backend.account_exists(A));
}

#[test]
fn prune_on_another_block_removes_from_its_snapshot_and_spares_the_live_account() {
    let v = vicinity_at(100);
    let mut backend = MemoryBackend::new(&v, state_of(vec![(A, account(4, 2, vec![], vec![]))]));
    changes(&mut backend, 99, vec![modify(A, 3, 0), modify(B, 1, 0)], false);
    changes(&mut backend, 99, vec![modify(A, 0, 0)], true);
    let snapshot = backend.archive_state().get(&word(99)).unwrap();
    assert!(!snapshot.contains_key(&A));
    assert!(snapshot.contains_key(&B));
    assert_eq!(backend.basic(A), Basic { balance: word(4), nonce: word(2) });
}

#[test]
fn pruning_the_only_archived_account_leaves_an_empty_snapshot() {
    let v = vicinity_at(100);
    let mut backend = MemoryBackend::new(&v, BTreeMap::new());
    changes(&mut backend, 99, vec![modify(A, 0, 0)], true);
    assert_eq!(backend.archive_state().get(&word(99)), Some(&BTreeMap::new()));
}

#[test]
fn delete_removes_the_live_account() {
    let v = vicinity_at(100);
    let mut backend = MemoryBackend::new(
        &v,
        state_of(vec![(A, account(4, 2, vec![], vec![1])), (B, account(1, 1, vec![], vec![]))]),
    );
    changes(&mut backend, 100, vec![Apply::Delete { address: A }], false);
    assert!(!backend.account_exists(A));
    assert_eq!(backend.basic(A), Basic { balance: word(0), nonce: word(0) });
    assert!(backend.account_exists(B));
}

#[test]
fn delete_for_another_block_still_removes_the_live_account() {
    let v = vicinity_at(100);
    let mut backend = MemoryBackend::new(&v, state_of(vec![(A, account(4, 2, vec![], vec![]))]));
    changes(&mut backend, 99, vec![modify(A, 8, 8)], false);
    changes(&mut backend, 99, vec![Apply::Delete { address: A }], false);
    assert!(!backend.account_exists(A));
    let snapshot = backend.archive_state().get(&word(99)).unwrap();
    assert_eq!(snapshot.get(&A), Some(&account(8, 8, vec![], vec![])));
}

#[test]
fn delete_alone_creates_no_snapshot() {
    let v = vicinity_at(100);
    let mut backend = MemoryBackend::new(&v, state_of(vec![(A, account(4, 2, vec![], vec![]))]));
    changes(&mut backend, 99, vec![Apply::Delete { address: B }], false);
    assert!(backend.archive_state().is_empty());
    assert!(backend.account_exists(A));
}

#[test]
fn last_instruction_for_an_address_wins() {
    let v = vicinity_at(100);
    let mut backend = MemoryBackend::new(&v, BTreeMap::new());
    changes(&mut backend, 100, vec![modify(A, 1, 1), modify(B, 7, 7), modify(A, 2, 3)], false);
    assert_eq!(backend.basic(A), Basic { balance: word(2), nonce: word(3) });
    assert_eq!(backend.basic(B), Basic { balance: word(7), nonce: word(7) });
}

#[test]
fn modify_then_delete_leaves_nothing_and_delete_then_modify_starts_fresh() {
    let v = vicinity_at(100);
    let mut backend =
        MemoryBackend::new(&v, state_of(vec![(B, account(4, 2, vec![(K, hash(7))], vec![9]))]));
    let values = vec![
        modify(A, 1, 1),
        Apply::Delete { address: A },
        Apply::Delete { address: B },
        modify(B, 5, 0),
    ];
    changes(&mut backend, 100, values, false);
    assert!(!backend.account_exists(A));
    assert_eq!(backend.state().get(&B), Some(&account(5, 0, vec![], vec![])));
}

#[test]
fn storage_written_by_an_earlier_instruction_is_kept_by_a_later_one() {
    let v = vicinity_at(100);
    let mut backend = MemoryBackend::new(&v, BTreeMap::new());
    let values = vec![write(A, vec![(K, hash(1))], false), write(A, vec![(K2, hash(2))], false)];
    changes(&mut backend, 100, values, false);
    assert_eq!(backend.storage(A, K), hash(1));
    assert_eq!(backend.storage(A, K2), hash(2));
}

#[test]
fn code_is_replaced_only_when_new_code_is_supplied() {
    let v = vicinity_at(100);
    let mut backend = MemoryBackend::new(&v, BTreeMap::new());
    changes(&mut backend, 100, vec![with_code(A, Some(vec![1, 2, 3]))], false);
    assert_eq!(backend.code(A), vec![1, 2, 3]);
    changes(&mut backend, 100, vec![with_code(A, None)], false);
    assert_eq!(backend.code(A), vec![1, 2, 3]);
    changes(&mut backend, 100, vec![with_code(A, Some(vec![]))], false);
    assert_eq!(backend.code(A), Vec::<u8>::new());
    assert_eq!(backend.code_size(A), 0);
}

#[test]
fn created_is_marked_for_listed_addresses_on_the_tip_only() {
    let v = vicinity_at(100);
    let mut backend = MemoryBackend::new(&v, BTreeMap::new());
    let created: BTreeSet<H160> = [A].into_iter().collect();
    backend.apply(word(100), vec![modify(A, 1, 0), modify(B, 1, 0)], vec![], vec![], created.clone(), false);
    backend.apply(word(99), vec![modify(A, 1, 0)], vec![], vec![], created, false);
    assert!(backend.state().get(&A).unwrap().created);
    assert!(!backend.state().get(&B).unwrap().created);
    assert!(!backend.archive_state().get(&word(99)).unwrap().get(&A).unwrap().created);
}

#[test]
fn created_stays_once_marked() {
    let v = vicinity_at(100);
    let mut backend = MemoryBackend::new(&v, BTreeMap::new());
    let created: BTreeSet<H160> = [A].into_iter().collect();
    backend.apply(word(100), vec![modify(A, 1, 0)], vec![], vec![], created, false);
    changes(&mut backend, 100, vec![modify(A, 2, 0)], false);
    assert!(backend.state().get(&A).unwrap().created);
}

#[test]
fn logs_accumulate_over_two_batches_for_a_block_that_is_not_the_tip() {
    let v = vicinity_at(100);
    let mut backend = MemoryBackend::new(&v, BTreeMap::new());
    backend.apply(word(99), vec![], vec![log(A, 1), log(B, 2)], vec![], BTreeSet::new(), false);
    backend.apply(word(99), vec![], vec![log(C, 3)], vec![], BTreeSet::new(), false);
    assert_eq!(backend.logs().get(&word(99)), Some(&vec![log(A, 1), log(B, 2), log(C, 3)]));
    assert_eq!(backend.logs().len(), 1);
}

#[test]
fn logs_accumulate_on_the_tip_and_are_kept_per_block() {
    let v = vicinity_at(100);
    let mut backend = MemoryBackend::new(&v, BTreeMap::new());
    backend.apply(word(100), vec![], vec![log(A, 1)], vec![], BTreeSet::new(), false);
    backend.apply(word(7), vec![], vec![log(B, 2)], vec![], BTreeSet::new(), false);
    backend.apply(word(100), vec![], vec![log(A, 3), log(A, 3)], vec![], BTreeSet::new(), false);
    assert_eq!(backend.logs().get(&word(100)), Some(&vec![log(A, 1), log(A, 3), log(A, 3)]));
    assert_eq!(backend.logs().get(&word(7)), Some(&vec![log(B, 2)]));
}

#[test]
fn a_batch_without_logs_records_the_block_with_no_logs() {
    let v = vicinity_at(100);
    let mut backend = MemoryBackend::new(&v, BTreeMap::new());
    assert!(backend.logs().is_empty());
    changes(&mut backend, 100, vec![], false);
    assert_eq!(backend.logs().get(&word(100)), Some(&vec![]));
    backend.apply(word(100), vec![], vec![log(A, 1)], vec![], BTreeSet::new(), false);
    changes(&mut backend, 100, vec![], false);
    assert_eq!(backend.logs().get(&word(100)), Some(&vec![log(A, 1)]));
}

#[test]
fn receipt_recorded_twice_keeps_the_second() {
    let v = vicinity_at(100);
    let mut backend = MemoryBackend::new(&v, BTreeMap::new());
    backend.apply(word(100), vec![], vec![], vec![receipt(hash(1), 10, 0)], BTreeSet::new(), false);
    assert_eq!(backend.tx_receipt(hash(1)), receipt(hash(1), 10, 0));
    backend.apply(word(100), vec![], vec![], vec![receipt(hash(1), 20, 1)], BTreeSet::new(), false);
    assert_eq!(backend.tx_receipt(hash(1)), receipt(hash(1), 20, 1));
}

#[test]
fn of_two_receipts_with_one_hash_in_a_batch_the_later_stays() {
    let v = vicinity_at(100);
    let mut backend = MemoryBackend::new(&v, BTreeMap::new());
    let recs = vec![receipt(hash(1), 10, 0), receipt(hash(2), 5, 1), receipt(hash(1), 30, 1)];
    backend.apply(word(99), vec![], vec![], recs, BTreeSet::new(), false);
    assert_eq!(backend.tx_receipt(hash(1)), receipt(hash(1), 30, 1));
    assert_eq!(backend.tx_receipt(hash(2)), receipt(hash(2), 5, 1));
}

#[test]
fn missing_receipt_is_the_default_receipt() {
    let v = vicinity_at(100);
    let mut backend = MemoryBackend::new(&v, BTreeMap::new());
    assert_eq!(backend.tx_receipt(hash(1)), TxReceipt::default());
    backend.apply(word(100), vec![], vec![], vec![receipt(hash(1), 10, 0)], BTreeSet::new(), false);
    assert_eq!(backend.tx_receipt(hash(2)), TxReceipt::default());
    let blank = TxReceipt::default();
    assert_eq!(blank.hash, ZERO);
    assert_eq!(blank.caller, (0, 0));
    assert_eq!(blank.to, None);
    assert_eq!(blank.block_number, word(0));
    assert_eq!((blank.cumulative_gas_used, blank.gas_used, blank.status), (0, 0, 0));
    assert!(blank.contract_addresses.is_empty());
    assert!(blank.logs.is_empty());
}

#[test]
fn receipt_keeps_all_its_fields() {
    let v = vicinity_at(100);
    let mut backend = MemoryBackend::new(&v, BTreeMap::new());
    let full = TxReceipt {
        hash: (5, 6),
        caller: C,
        to: None,
        block_number: (1, 2, 3, 4),
        cumulative_gas_used: 21_000,
        gas_used: 20_000,
        contract_addresses: [A, B].into_iter().collect(),
        logs: vec![log(A, 1), log(B, 2)],
        status: 1,
    };
    backend.apply(word(100), vec![], vec![], vec![full.clone()], BTreeSet::new(), false);
    assert_eq!(backend.tx_receipt((5, 6)), full);
    assert_eq!(backend.tx_receipt((6, 5)), TxReceipt::default());
}

#[test]
fn one_batch_changes_accounts_logs_and_receipts_together() {
    let v = vicinity_at(100);
    let mut backend = MemoryBackend::new(&v, BTreeMap::new());
    backend.apply(
        word(100),
        vec![modify(A, 5, 1)],
        vec![log(A, 1)],
        vec![receipt(hash(1), 10, 1)],
        BTreeSet::new(),
        true,
    );
    assert_eq!(backend.basic(A), Basic { balance: word(5), nonce: word(1) });
    assert_eq!(backend.logs().get(&word(100)), Some(&vec![log(A, 1)]));
    assert_eq!(backend.tx_receipt(hash(1)), receipt(hash(1), 10, 1));
}

#[test]
fn a_clone_is_a_store_of_its_own() {
    let v = vicinity_at(100);
    let mut backend = MemoryBackend::new(&v, state_of(vec![(A, account(1, 1, vec![], vec![]))]));
    let copy = backend.clone();
    changes(&mut backend, 100, vec![modify(A, 2, 2), modify(B, 3, 3)], false);
    assert_eq!(copy.basic(A), Basic { balance: word(1), nonce: word(1) });
    assert!(!copy.account_exists(B));
    assert_eq!(backend.basic(A), Basic { balance: word(2), nonce: word(2) });
    assert_eq!(copy.block_number(), word(100));
}
