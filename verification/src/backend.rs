//! What a batch of state changes is made of, and the store that takes it.

pub mod memory;

use crate::backend::memory::TxReceipt;
use crate::keccak::keccak256_digest;
use crate::model::{
    modifies, no_zero_slot, Change, Environment, LogView, TxReceiptView, WorldState,
};
use crate::primitives::{h256_of_bytes, h256_zero, u256_value, u256_zero, H160, H256, U256};
use std::collections::BTreeSet;
use vstd::prelude::*;

verus! {

/// Balance and nonce of an account.
#[derive(Clone, Copy, Debug, PartialEq, Eq)]
pub struct Basic {
    /// Account balance.
    pub balance: U256,
    /// Account nonce.
    pub nonce: U256,
}

impl Default for Basic {
    /// Zero balance and zero nonce.
    fn default() -> (basic: Basic)
        ensures
            basic == (Basic { balance: u256_zero(), nonce: u256_zero() }),
    {
        Basic { balance: u256_zero(), nonce: u256_zero() }
    }
}

/// A copy of a list of hashes.
pub fn copy_hashes(hashes: &Vec<H256>) -> (copy: Vec<H256>)
    ensures
        copy@ == hashes@,
{
    let mut copy: Vec<H256> = Vec::new();
    let mut i: usize = 0;
    while i < hashes.len()
        invariant
            i <= hashes.len(),
            copy@ == hashes@.take(i as int),
        decreases hashes.len() - i,
    {
        copy.push(hashes[i]);
        i = i + 1;
    }
    copy
}

/// A copy of a list of storage slots.
pub fn copy_slots(slots: &Vec<(H256, H256)>) -> (copy: Vec<(H256, H256)>)
    ensures
        copy@ == slots@,
{
    let mut copy: Vec<(H256, H256)> = Vec::new();
    let mut i: usize = 0;
    while i < slots.len()
        invariant
            i <= slots.len(),
            copy@ == slots@.take(i as int),
        decreases slots.len() - i,
    {
        copy.push(slots[i]);
        i = i + 1;
    }
    copy
}

/// One emitted event.
#[derive(Debug, PartialEq, Eq)]
pub struct Log {
    /// The address that emitted it.
    pub address: H160,
    /// Its topics.
    pub topics: Vec<H256>,
    /// Its data.
    pub data: Vec<u8>,
}

impl View for Log {
    type V = LogView;

    open spec fn view(&self) -> LogView {
        LogView { address: self.address, topics: self.topics@, data: self.data@ }
    }
}

impl Clone for Log {
    fn clone(&self) -> (copy: Log)
        ensures
            copy@ == self@,
    {
        Log { address: self.address, topics: copy_hashes(&self.topics), data: self.data.clone() }
    }
}

/// The events of `logs` as mathematical values.
pub open spec fn logs_view(logs: Seq<Log>) -> Seq<LogView> {
    logs.map_values(|log: Log| log@)
}

/// A copy of a list of events.
pub fn copy_logs(logs: &Vec<Log>) -> (copy: Vec<Log>)
    ensures
        logs_view(copy@) == logs_view(logs@),
{
    let mut copy: Vec<Log> = Vec::new();
    let mut i: usize = 0;
    while i < logs.len()
        invariant
            i <= logs.len(),
            logs_view(copy@) == logs_view(logs@).take(i as int),
        decreases logs.len() - i,
    {
        let ghost before = copy@;
        copy.push(logs[i].clone());
        assert(logs_view(copy@) == logs_view(before).push(logs[i as int]@));
        i = i + 1;
    }
    copy
}

/// One instruction of a batch: set an account's state, or remove the account.
#[derive(Debug)]
pub enum Apply {
    /// Set the state of `address`.
    Modify {
        /// The address to write to.
        address: H160,
        /// Its new balance and nonce.
        basic: Basic,
        /// Its new code, where the code changes.
        code: Option<Vec<u8>>,
        /// Storage slots to write, as pairs of key and value.
        storage: Vec<(H256, H256)>,
        /// Whether the storage is emptied before the slots are written.
        reset_storage: bool,
    },
    /// Remove `address`.
    Delete {
        /// The address to remove.
        address: H160,
    },
}

/// The bytes of the code that comes with an instruction, if any does.
pub open spec fn code_view(code: Option<Vec<u8>>) -> Option<Seq<u8>> {
    match code {
        Some(bytes) => Some(bytes@),
        None => None,
    }
}

impl Clone for Apply {
    fn clone(&self) -> (copy: Apply)
        ensures
            copy@ == self@,
    {
        match self {
            Apply::Modify { address, basic, code, storage, reset_storage } => Apply::Modify {
                address: *address,
                basic: *basic,
                code: match code {
                    Some(bytes) => Some(bytes.clone()),
                    None => None,
                },
                storage: copy_slots(storage),
                reset_storage: *reset_storage,
            },
            Apply::Delete { address } => Apply::Delete { address: *address },
        }
    }
}

impl View for Apply {
    type V = Change;

    open spec fn view(&self) -> Change {
        match *self {
            Apply::Modify { address, basic, code, storage, reset_storage } => Change::Modify {
                address,
                basic,
                code: code_view(code),
                storage: storage@,
                reset_storage,
            },
            Apply::Delete { address } => Change::Delete { address },
        }
    }
}

/// The instructions of `changes` as mathematical values.
pub open spec fn changes_view(changes: Seq<Apply>) -> Seq<Change> {
    changes.map_values(|change: Apply| change@)
}

/// The receipts of `receipts` as mathematical values.
pub open spec fn receipts_view(receipts: Seq<TxReceipt>) -> Seq<TxReceiptView> {
    receipts.map_values(|receipt: TxReceipt| receipt@)
}

/// The read side of a store: questions about the environment and about the
/// live accounts. No answer depends on an archived snapshot.
pub trait Backend {
    /// The environment that the store answers from.
    spec fn environment(&self) -> Environment;

    /// Everything the store holds.
    spec fn world(&self) -> WorldState;

    /// Gas price.
    fn gas_price(&self) -> (price: U256)
        ensures
            price == self.environment().gas_price,
    ;

    /// Origin.
    fn origin(&self) -> (origin: H160)
        ensures
            origin == self.environment().origin,
    ;

    /// The hash of block `number`, as far as the environment knows it: zero
    /// for a block that is not before the current one, the entry that lies
    /// as many places back as the block does for a block within reach of the
    /// recent hashes, and zero for a block beyond their reach.
    fn block_hash(&self, number: U256) -> (hash: H256)
        ensures
            hash == self.environment().block_hash(number),
            u256_value(number) >= u256_value(self.environment().block_number) ==> hash
                == h256_zero(),
            0 <= self.environment().blocks_back(number) < self.environment().block_hashes.len()
                ==> hash == self.environment().block_hashes[self.environment().blocks_back(
                number,
            )],
    ;

    /// Environmental block number.
    fn block_number(&self) -> (number: U256)
        ensures
            number == self.environment().block_number,
    ;

    /// Environmental coinbase.
    fn block_coinbase(&self) -> (coinbase: H160)
        ensures
            coinbase == self.environment().block_coinbase,
    ;

    /// Environmental block timestamp.
    fn block_timestamp(&self) -> (timestamp: U256)
        ensures
            timestamp == self.environment().block_timestamp,
    ;

    /// Environmental block difficulty.
    fn block_difficulty(&self) -> (difficulty: U256)
        ensures
            difficulty == self.environment().block_difficulty,
    ;

    /// Environmental block gas limit.
    fn block_gas_limit(&self) -> (limit: U256)
        ensures
            limit == self.environment().block_gas_limit,
    ;

    /// Environmental chain ID.
    fn chain_id(&self) -> (id: U256)
        ensures
            id == self.environment().chain_id,
    ;

    /// Whether the live accounts hold `address`.
    fn account_exists(&self, address: H160) -> (found: bool)
        ensures
            found == self.world().accounts.contains_key(address),
    ;

    /// Balance and nonce of `address`.
    fn basic(&self, address: H160) -> (basic: Basic)
        ensures
            basic == self.world().basic(address),
    ;

    /// The Keccak-256 hash of the code of `address`.
    fn code_hash(&self, address: H160) -> (hash: H256)
        ensures
            hash == h256_of_bytes(keccak256_digest(self.world().code(address))),
    ;

    /// The length of the code of `address`.
    fn code_size(&self, address: H160) -> (size: usize)
        ensures
            size == self.world().code(address).len(),
    ;

    /// The code of `address`.
    fn code(&self, address: H160) -> (code: Vec<u8>)
        ensures
            code@ == self.world().code(address),
    ;

    /// What slot `index` of `address` holds.
    fn storage(&self, address: H160, index: H256) -> (value: H256)
        ensures
            value == self.world().storage(address, index),
    ;

    /// The receipt of transaction `hash`.
    fn tx_receipt(&self, hash: H256) -> (receipt: TxReceipt)
        ensures
            receipt@ == self.world().receipt(hash),
    ;
}

/// The write side of a store.
pub trait ApplyBackend: Backend {
    /// Applies one batch for `block`: the instructions of `values` in order,
    /// then the logs, then the receipts. The environment stays as it is.
    /// Afterwards no slot of an account that the batch has modified holds
    /// zero, and if no slot at all held zero before, none does now.
    fn apply(
        &mut self,
        block: U256,
        values: Vec<Apply>,
        logs: Vec<Log>,
        recs: Vec<TxReceipt>,
        created_contracts: BTreeSet<H160>,
        delete_empty: bool,
    )
        ensures
            final(self).environment() == old(self).environment(),
            final(self).world() == old(self).world().apply(
                block,
                changes_view(values@),
                logs_view(logs@),
                receipts_view(recs@),
                created_contracts@,
                delete_empty,
            ),
            forall|address: H160|
                modifies(changes_view(values@), address) && #[trigger] final(self).world().accounts_of(
                    block,
                ).contains_key(address) ==> no_zero_slot(
                    final(self).world().accounts_of(block)[address].storage,
                ),
            old(self).world().storage_normalized() ==> final(self).world().storage_normalized(),
    ;
}

} // verus!
