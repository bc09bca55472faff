//! The store that keeps the whole world state in memory.

use crate::backend::{
    changes_view, code_view, copy_hashes, copy_logs, logs_view, receipts_view, Apply,
    ApplyBackend, Backend, Basic, Log,
};
use crate::keccak::keccak256;
use crate::laws::{lemma_apply_keeps_normalized, lemma_modified_accounts_hold_no_zero};
use crate::model::{
    drop_zero_slots, modifies, modify_account, no_zero_slot, write_slots, AccountState,
    Environment, LogView, TxReceiptView, WorldState,
};
use crate::primitives::{
    h256_is_zero, h256_zero, u256_as_usize, u256_eq, u256_from_usize, u256_ge, u256_is_zero,
    u256_one, u256_sub, u256_zero, H160, H256, U256,
};
use std::collections::{BTreeMap, BTreeSet};
use vstd::prelude::*;
use vstd::std_specs::iter::IteratorSpec;

verus! {

/// Transaction receipt.
#[derive(Debug, PartialEq, Eq)]
pub struct TxReceipt {
    /// Transaction hash.
    pub hash: H256,
    /// From address.
    pub caller: H160,
    /// To address.
    pub to: Option<H160>,
    /// Block number.
    pub block_number: U256,
    /// Total gas used up.
    pub cumulative_gas_used: usize,
    /// Gas used for this transaction.
    pub gas_used: usize,
    /// Created contract addresses.
    pub contract_addresses: BTreeSet<H160>,
    /// Logs.
    pub logs: Vec<Log>,
    /// Success or failure.
    pub status: usize,
}

impl View for TxReceipt {
    type V = TxReceiptView;

    open spec fn view(&self) -> TxReceiptView {
        TxReceiptView {
            hash: self.hash,
            caller: self.caller,
            to: self.to,
            block_number: self.block_number,
            cumulative_gas_used: self.cumulative_gas_used,
            gas_used: self.gas_used,
            contract_addresses: self.contract_addresses@,
            logs: logs_view(self.logs@),
            status: self.status,
        }
    }
}

impl Clone for TxReceipt {
    fn clone(&self) -> (copy: TxReceipt)
        ensures
            copy@ == self@,
    {
        TxReceipt {
            hash: self.hash,
            caller: self.caller,
            to: self.to,
            block_number: self.block_number,
            cumulative_gas_used: self.cumulative_gas_used,
            gas_used: self.gas_used,
            contract_addresses: self.contract_addresses.clone(),
            logs: copy_logs(&self.logs),
            status: self.status,
        }
    }
}

impl Default for TxReceipt {
    /// The blank receipt.
    fn default() -> (receipt: TxReceipt)
        ensures
            receipt@ == TxReceiptView::blank(),
    {
        let receipt = TxReceipt {
            hash: h256_zero(),
            caller: (0, 0),
            to: None,
            block_number: u256_zero(),
            cumulative_gas_used: 0,
            gas_used: 0,
            contract_addresses: BTreeSet::new(),
            logs: Vec::new(),
            status: 0,
        };
        assert(receipt@.logs =~= Seq::empty());
        receipt
    }
}

/// Vicinity value of a memory backend.
#[derive(Debug, PartialEq, Eq)]
pub struct MemoryVicinity {
    /// Gas price.
    pub gas_price: U256,
    /// Origin.
    pub origin: H160,
    /// Chain ID.
    pub chain_id: U256,
    /// Environmental block hashes, the most recent first.
    pub block_hashes: Vec<H256>,
    /// Environmental block number.
    pub block_number: U256,
    /// Environmental coinbase.
    pub block_coinbase: H160,
    /// Environmental block timestamp.
    pub block_timestamp: U256,
    /// Environmental block difficulty.
    pub block_difficulty: U256,
    /// Environmental block gas limit.
    pub block_gas_limit: U256,
}

impl View for MemoryVicinity {
    type V = Environment;

    open spec fn view(&self) -> Environment {
        Environment {
            gas_price: self.gas_price,
            origin: self.origin,
            chain_id: self.chain_id,
            block_hashes: self.block_hashes@,
            block_number: self.block_number,
            block_coinbase: self.block_coinbase,
            block_timestamp: self.block_timestamp,
            block_difficulty: self.block_difficulty,
            block_gas_limit: self.block_gas_limit,
        }
    }
}

impl Clone for MemoryVicinity {
    fn clone(&self) -> (copy: MemoryVicinity)
        ensures
            copy@ == self@,
    {
        MemoryVicinity {
            gas_price: self.gas_price,
            origin: self.origin,
            chain_id: self.chain_id,
            block_hashes: copy_hashes(&self.block_hashes),
            block_number: self.block_number,
            block_coinbase: self.block_coinbase,
            block_timestamp: self.block_timestamp,
            block_difficulty: self.block_difficulty,
            block_gas_limit: self.block_gas_limit,
        }
    }
}

/// Account information of a memory backend.
#[derive(Debug, PartialEq, Eq)]
pub struct MemoryAccount {
    /// Account nonce.
    pub nonce: U256,
    /// Account balance.
    pub balance: U256,
    /// Full account storage.
    pub storage: BTreeMap<H256, H256>,
    /// Account code.
    pub code: Vec<u8>,
    /// Whether the account was created by a batch applied to the tip.
    pub created: bool,
}

impl View for MemoryAccount {
    type V = AccountState;

    open spec fn view(&self) -> AccountState {
        AccountState {
            nonce: self.nonce,
            balance: self.balance,
            storage: self.storage@,
            code: self.code@,
            created: self.created,
        }
    }
}

impl Clone for MemoryAccount {
    fn clone(&self) -> (copy: MemoryAccount)
        ensures
            copy@ == self@,
    {
        MemoryAccount {
            nonce: self.nonce,
            balance: self.balance,
            storage: self.storage.clone(),
            code: self.code.clone(),
            created: self.created,
        }
    }
}

impl Default for MemoryAccount {
    /// The account of an address that was never written.
    fn default() -> (account: MemoryAccount)
        ensures
            account@ == AccountState::fresh(),
    {
        MemoryAccount {
            nonce: u256_zero(),
            balance: u256_zero(),
            storage: BTreeMap::new(),
            code: Vec::new(),
            created: false,
        }
    }
}

/// Removes from `storage` every slot that holds zero.
pub fn remove_zero_slots(storage: &mut BTreeMap<H256, H256>)
    ensures
        final(storage)@ == drop_zero_slots(old(storage)@),
{
    broadcast use vstd::std_specs::btree::group_btree_axioms;

    let mut zeros: Vec<H256> = Vec::new();
    for entry in it: storage.iter()
        invariant
            it.seq() == storage.iter().remaining(),
            forall|j: int|
                0 <= j < zeros@.len() ==> storage@.contains_key(#[trigger] zeros@[j])
                    && storage@[zeros@[j]] == h256_zero(),
            forall|i: int|
                0 <= i < it.index() && *(#[trigger] it.seq()[i]).1 == h256_zero()
                    ==> zeros@.contains(*it.seq()[i].0),
    {
        let (key, value) = entry;
        let ghost before = zeros@;
        if h256_is_zero(*value) {
            zeros.push(*key);
        }
        proof {
            assert forall|i: int|
                0 <= i < it.index() + 1 && *(#[trigger] it.seq()[i]).1
                    == h256_zero() implies zeros@.contains(*it.seq()[i].0) by {
                if i < it.index() {
                    let j = choose|j: int| 0 <= j < before.len() && before[j] == *it.seq()[i].0;
                    assert(zeros@[j] == *it.seq()[i].0);
                } else {
                    assert(zeros@[zeros@.len() - 1] == *key);
                }
            }
        }
    }
    assert(zeros@.take(0).to_set() == Set::<H256>::empty());
    let mut n: usize = 0;
    while n < zeros.len()
        invariant
            n <= zeros.len(),
            storage@ == old(storage)@.remove_keys(zeros@.take(n as int).to_set()),
            forall|j: int|
                0 <= j < zeros@.len() ==> old(storage)@.contains_key(#[trigger] zeros@[j])
                    && old(storage)@[zeros@[j]] == h256_zero(),
            forall|key: H256|
                old(storage)@.contains_key(key) && old(storage)@[key] == h256_zero()
                    ==> zeros@.contains(key),
        decreases zeros.len() - n,
    {
        storage.remove(&zeros[n]);
        assert(zeros@.take(n + 1).to_set() == zeros@.take(n as int).to_set().insert(
            zeros@[n as int],
        )) by {
            assert(zeros@.take(n + 1) == zeros@.take(n as int).push(zeros@[n as int]));
            zeros@.take(n as int).lemma_push_to_set_commute(zeros@[n as int]);
        }
        n = n + 1;
    }
    assert(zeros@.take(zeros@.len() as int) == zeros@);
    assert(storage@ =~= drop_zero_slots(old(storage)@));
}

/// Writes `entries` to `storage`, the first one first: a zero value removes
/// its slot, any other value is stored in it.
pub fn store_slots(storage: &mut BTreeMap<H256, H256>, entries: &Vec<(H256, H256)>)
    ensures
        final(storage)@ == write_slots(old(storage)@, entries@),
{
    broadcast use vstd::std_specs::btree::group_btree_axioms;

    let mut i: usize = 0;
    while i < entries.len()
        invariant
            i <= entries.len(),
            storage@ == write_slots(old(storage)@, entries@.take(i as int)),
        decreases entries.len() - i,
    {
        let (key, value) = entries[i];
        if h256_is_zero(value) {
            storage.remove(&key);
        } else {
            storage.insert(key, value);
        }
        assert(entries@.take(i + 1).drop_last() == entries@.take(i as int));
        i = i + 1;
    }
    assert(entries@.take(entries@.len() as int) == entries@);
}

impl MemoryAccount {
    /// Whether the account has no balance, no nonce and no code.
    pub fn is_empty(&self) -> (empty: bool)
        ensures
            empty == self@.is_empty(),
    {
        u256_is_zero(self.balance) && u256_is_zero(self.nonce) && self.code.len() == 0
    }

    /// Carries out one modify instruction on the account.
    pub fn modify(
        &mut self,
        basic: Basic,
        code: Option<Vec<u8>>,
        storage: &Vec<(H256, H256)>,
        reset_storage: bool,
        created: bool,
    )
        ensures
            final(self)@ == old(self)@.modified(
                basic,
                code_view(code),
                storage@,
                reset_storage,
                created,
            ),
    {
        self.balance = basic.balance;
        self.nonce = basic.nonce;
        if let Some(new_code) = code {
            self.code = new_code;
        }
        if created {
            self.created = true;
        }
        if reset_storage {
            self.storage = BTreeMap::new();
        }
        remove_zero_slots(&mut self.storage);
        store_slots(&mut self.storage, storage);
    }
}

/// The accounts of `accounts` as mathematical values.
pub open spec fn accounts_view(accounts: Map<H160, MemoryAccount>) -> Map<H160, AccountState> {
    accounts.map_values(|account: MemoryAccount| account@)
}

/// The snapshots of `archive` as mathematical values.
pub open spec fn archive_view(archive: Map<U256, BTreeMap<H160, MemoryAccount>>) -> Map<
    U256,
    Map<H160, AccountState>,
> {
    archive.map_values(|snapshot: BTreeMap<H160, MemoryAccount>| accounts_view(snapshot@))
}

/// The logs of `logs` as mathematical values.
pub open spec fn log_store_view(logs: Map<U256, Vec<Log>>) -> Map<U256, Seq<LogView>> {
    logs.map_values(|block_logs: Vec<Log>| logs_view(block_logs@))
}

/// The receipts of `receipts` as mathematical values.
pub open spec fn receipt_store_view(receipts: Map<H256, TxReceipt>) -> Map<H256, TxReceiptView> {
    receipts.map_values(|receipt: TxReceipt| receipt@)
}

/// Carries out one modify instruction for `address` on a set of accounts. An
/// address that the set does not hold starts from a fresh account. With
/// `delete_empty`, an account that comes out empty is removed.
pub fn apply_modify(
    accounts: &mut BTreeMap<H160, MemoryAccount>,
    address: H160,
    basic: Basic,
    code: Option<Vec<u8>>,
    storage: &Vec<(H256, H256)>,
    reset_storage: bool,
    created: bool,
    delete_empty: bool,
)
    ensures
        accounts_view(final(accounts)@) == modify_account(
            accounts_view(old(accounts)@),
            address,
            basic,
            code_view(code),
            storage@,
            reset_storage,
            created,
            delete_empty,
        ),
{
    broadcast use vstd::std_specs::btree::group_btree_axioms;

    let mut account = match accounts.remove(&address) {
        Some(account) => account,
        None => MemoryAccount::default(),
    };
    account.modify(basic, code, storage, reset_storage, created);
    if !(delete_empty && account.is_empty()) {
        accounts.insert(address, account);
    }
    assert(accounts_view(accounts@) =~= modify_account(
        accounts_view(old(accounts)@),
        address,
        basic,
        code_view(code),
        storage@,
        reset_storage,
        created,
        delete_empty,
    ));
}

/// Memory backend, storing all state values in a `BTreeMap` in memory.
#[derive(Debug)]
pub struct MemoryBackend<'vicinity> {
    vicinity: &'vicinity MemoryVicinity,
    state: BTreeMap<H160, MemoryAccount>,
    archive_state: BTreeMap<U256, BTreeMap<H160, MemoryAccount>>,
    local_block_num: U256,
    logs: BTreeMap<U256, Vec<Log>>,
    tx_history: BTreeMap<H256, TxReceipt>,
}

impl<'vicinity> MemoryBackend<'vicinity> {
    /// Create a new memory backend. Its tip is the block number of the
    /// vicinity; it has no archive, no logs and no receipts.
    pub fn new(vicinity: &'vicinity MemoryVicinity, state: BTreeMap<H160, MemoryAccount>) -> (backend:
        Self)
        ensures
            backend.environment() == vicinity@,
            backend.world() == (WorldState {
                tip: vicinity.block_number,
                accounts: accounts_view(state@),
                archive: Map::empty(),
                logs: Map::empty(),
                receipts: Map::empty(),
            }),
    {
        let backend = MemoryBackend {
            vicinity,
            state,
            archive_state: BTreeMap::new(),
            local_block_num: vicinity.block_number,
            logs: BTreeMap::new(),
            tx_history: BTreeMap::new(),
        };
        assert(backend.world() =~~= (WorldState {
            tip: vicinity.block_number,
            accounts: accounts_view(state@),
            archive: Map::empty(),
            logs: Map::empty(),
            receipts: Map::empty(),
        }));
        backend
    }

    /// Get the underlying `BTreeMap` storing the state.
    pub fn state(&self) -> (state: &BTreeMap<H160, MemoryAccount>)
        ensures
            accounts_view(state@) == self.world().accounts,
    {
        &self.state
    }

    /// Get the underlying `BTreeMap` storing the snapshots of the blocks
    /// other than the tip.
    pub fn archive_state(&self) -> (archive: &BTreeMap<U256, BTreeMap<H160, MemoryAccount>>)
        ensures
            archive_view(archive@) == self.world().archive,
    {
        &self.archive_state
    }

    /// Get the underlying `BTreeMap` storing the logs of each block.
    pub fn logs(&self) -> (logs: &BTreeMap<U256, Vec<Log>>)
        ensures
            log_store_view(logs@) == self.world().logs,
    {
        &self.logs
    }

    /// Carries out one instruction of a batch for `block`.
    fn apply_one(
        &mut self,
        block: U256,
        change: Apply,
        created_contracts: &BTreeSet<H160>,
        delete_empty: bool,
    )
        ensures
            final(self).environment() == old(self).environment(),
            final(self).world() == old(self).world().apply_change(
                block,
                change@,
                created_contracts@,
                delete_empty,
            ),
    {
        broadcast use vstd::std_specs::btree::group_btree_axioms;

        match change {
            Apply::Modify { address, basic, code, storage, reset_storage } => {
                if u256_eq(block, self.local_block_num) {
                    let created = created_contracts.contains(&address);
                    apply_modify(
                        &mut self.state,
                        address,
                        basic,
                        code,
                        &storage,
                        reset_storage,
                        created,
                        delete_empty,
                    );
                } else {
                    let mut snapshot = match self.archive_state.remove(&block) {
                        Some(snapshot) => snapshot,
                        None => BTreeMap::new(),
                    };
                    apply_modify(
                        &mut snapshot,
                        address,
                        basic,
                        code,
                        &storage,
                        reset_storage,
                        false,
                        delete_empty,
                    );
                    self.archive_state.insert(block, snapshot);
                }
            },
            Apply::Delete { address } => {
                self.state.remove(&address);
            },
        }
        assert(self.world() =~~= old(self).world().apply_change(
            block,
            change@,
            created_contracts@,
            delete_empty,
        ));
    }
}

impl<'vicinity> Clone for MemoryBackend<'vicinity> {
    fn clone(&self) -> (copy: Self)
        ensures
            copy.environment() == self.environment(),
            copy.world() == self.world(),
    {
        MemoryBackend {
            vicinity: self.vicinity,
            state: self.state.clone(),
            archive_state: self.archive_state.clone(),
            local_block_num: self.local_block_num,
            logs: self.logs.clone(),
            tx_history: self.tx_history.clone(),
        }
    }
}

/// The store answers from its vicinity and from its live accounts; what
/// each method promises is stated once, in the trait.
impl<'vicinity> Backend for MemoryBackend<'vicinity> {
    /// The vicinity that the store was made with.
    closed spec fn environment(&self) -> Environment {
        self.vicinity@
    }

    /// The five parts of the store, each as a mathematical value.
    closed spec fn world(&self) -> WorldState {
        WorldState {
            tip: self.local_block_num,
            accounts: accounts_view(self.state@),
            archive: archive_view(self.archive_state@),
            logs: log_store_view(self.logs@),
            receipts: receipt_store_view(self.tx_history@),
        }
    }

    fn gas_price(&self) -> (price: U256) {
        self.vicinity.gas_price
    }

    fn origin(&self) -> (origin: H160) {
        self.vicinity.origin
    }

    fn block_hash(&self, number: U256) -> (hash: H256) {
        if u256_ge(number, self.vicinity.block_number) {
            return h256_zero();
        }
        let back = u256_sub(u256_sub(self.vicinity.block_number, number), u256_one());
        if u256_ge(back, u256_from_usize(self.vicinity.block_hashes.len())) {
            h256_zero()
        } else {
            self.vicinity.block_hashes[u256_as_usize(back)]
        }
    }

    fn block_number(&self) -> (number: U256) {
        self.vicinity.block_number
    }

    fn block_coinbase(&self) -> (coinbase: H160) {
        self.vicinity.block_coinbase
    }

    fn block_timestamp(&self) -> (timestamp: U256) {
        self.vicinity.block_timestamp
    }

    fn block_difficulty(&self) -> (difficulty: U256) {
        self.vicinity.block_difficulty
    }

    fn block_gas_limit(&self) -> (limit: U256) {
        self.vicinity.block_gas_limit
    }

    fn chain_id(&self) -> (id: U256) {
        self.vicinity.chain_id
    }

    fn account_exists(&self, address: H160) -> (found: bool) {
        broadcast use vstd::std_specs::btree::group_btree_axioms;

        self.state.contains_key(&address)
    }

    fn basic(&self, address: H160) -> (basic: Basic) {
        broadcast use vstd::std_specs::btree::group_btree_axioms;

        match self.state.get(&address) {
            Some(account) => Basic { balance: account.balance, nonce: account.nonce },
            None => Basic::default(),
        }
    }

    fn code_hash(&self, address: H160) -> (hash: H256) {
        broadcast use vstd::std_specs::btree::group_btree_axioms;

        match self.state.get(&address) {
            Some(account) => keccak256(account.code.as_slice()),
            None => {
                let no_code: Vec<u8> = Vec::new();
                keccak256(no_code.as_slice())
            },
        }
    }

    fn code_size(&self, address: H160) -> (size: usize) {
        broadcast use vstd::std_specs::btree::group_btree_axioms;

        match self.state.get(&address) {
            Some(account) => account.code.len(),
            None => 0,
        }
    }

    fn code(&self, address: H160) -> (code: Vec<u8>) {
        broadcast use vstd::std_specs::btree::group_btree_axioms;

        match self.state.get(&address) {
            Some(account) => account.code.clone(),
            None => Vec::new(),
        }
    }

    fn storage(&self, address: H160, index: H256) -> (value: H256) {
        broadcast use vstd::std_specs::btree::group_btree_axioms;

        match self.state.get(&address) {
            Some(account) => match account.storage.get(&index) {
                Some(value) => *value,
                None => h256_zero(),
            },
            None => h256_zero(),
        }
    }

    fn tx_receipt(&self, hash: H256) -> (receipt: TxReceipt) {
        broadcast use vstd::std_specs::btree::group_btree_axioms;

        match self.tx_history.get(&hash) {
            Some(receipt) => receipt.clone(),
            None => TxReceipt::default(),
        }
    }
}

/// What `apply` promises is stated in the trait.
impl<'vicinity> ApplyBackend for MemoryBackend<'vicinity> {
    fn apply(
        &mut self,
        block: U256,
        values: Vec<Apply>,
        logs: Vec<Log>,
        recs: Vec<TxReceipt>,
        created_contracts: BTreeSet<H160>,
        delete_empty: bool,
    ) {
        broadcast use vstd::std_specs::btree::group_btree_axioms;

        let ghost changes = changes_view(values@);
        let ghost receipts = receipts_view(recs@);
        for change in it: values
            invariant
                it.seq() == values@,
                changes == changes_view(values@),
                self.environment() == old(self).environment(),
                self.world() == old(self).world().apply_changes(
                    block,
                    changes.take(it.index()),
                    created_contracts@,
                    delete_empty,
                ),
        {
            assert(changes.take(it.index() + 1).drop_last() == changes.take(it.index()));
            self.apply_one(block, change, &created_contracts, delete_empty);
        }
        assert(changes.take(changes.len() as int) == changes);
        let ghost changed = self.world();

        let mut block_logs = match self.logs.remove(&block) {
            Some(block_logs) => block_logs,
            None => Vec::new(),
        };
        let ghost new_logs = logs_view(logs@);
        let mut logs = logs;
        block_logs.append(&mut logs);
        self.logs.insert(block, block_logs);
        assert(self.world() =~~= changed.append_logs(block, new_logs));
        let ghost logged = self.world();

        for receipt in it: recs
            invariant
                it.seq() == recs@,
                receipts == receipts_view(recs@),
                self.environment() == old(self).environment(),
                self.world() == logged.record_receipts(receipts.take(it.index())),
        {
            assert(receipts.take(it.index() + 1).drop_last() == receipts.take(it.index()));
            self.tx_history.insert(receipt.hash, receipt);
            assert(self.world() =~~= logged.record_receipts(receipts.take(it.index() + 1)));
        }
        assert(receipts.take(receipts.len() as int) == receipts);
        proof {
            assert forall|address: H160|
                modifies(changes, address) && #[trigger] self.world().accounts_of(
                    block,
                ).contains_key(address) implies no_zero_slot(
                self.world().accounts_of(block)[address].storage,
            ) by {
                lemma_modified_accounts_hold_no_zero(
                    old(self).world(),
                    block,
                    changes,
                    new_logs,
                    receipts,
                    created_contracts@,
                    delete_empty,
                    address,
                );
            }
            if old(self).world().storage_normalized() {
                lemma_apply_keeps_normalized(
                    old(self).world(),
                    block,
                    changes,
                    new_logs,
                    receipts,
                    created_contracts@,
                    delete_empty,
                );
            }
        }
    }
}

} // verus!
