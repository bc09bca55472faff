//! The world state as a mathematical value, and what applying a batch of
//! changes means for it.
//!
//! The contracts of the executable store are stated over these definitions.

use crate::backend::Basic;
use crate::primitives::{h256_zero, u256_value, u256_zero, H160, H256, U256};
use vstd::prelude::*;

verus! {

/// What the store is told about the chain around it. It never changes.
pub struct Environment {
    pub gas_price: U256,
    pub origin: H160,
    pub chain_id: U256,
    /// The hashes of the blocks before the current one, the most recent first.
    pub block_hashes: Seq<H256>,
    pub block_number: U256,
    pub block_coinbase: H160,
    pub block_timestamp: U256,
    pub block_difficulty: U256,
    pub block_gas_limit: U256,
}

impl Environment {
    /// How many blocks lie between block `number` and the current block.
    /// Negative where `number` is not before the current block.
    pub open spec fn blocks_back(self, number: U256) -> int {
        u256_value(self.block_number) - u256_value(number) - 1
    }

    /// The hash of block `number`: the entry of the recent hashes that lies
    /// as many places back as the block does; zero for a block that is not
    /// before the current one or lies further back than the hashes reach.
    pub open spec fn block_hash(self, number: U256) -> H256 {
        if 0 <= self.blocks_back(number) < self.block_hashes.len() {
            self.block_hashes[self.blocks_back(number)]
        } else {
            h256_zero()
        }
    }
}

/// One emitted event.
pub struct LogView {
    pub address: H160,
    pub topics: Seq<H256>,
    pub data: Seq<u8>,
}

/// The record of one transaction's outcome.
pub struct TxReceiptView {
    pub hash: H256,
    pub caller: H160,
    pub to: Option<H160>,
    pub block_number: U256,
    pub cumulative_gas_used: usize,
    pub gas_used: usize,
    pub contract_addresses: Set<H160>,
    pub logs: Seq<LogView>,
    pub status: usize,
}

impl TxReceiptView {
    /// The receipt that stands for "no such transaction".
    pub open spec fn blank() -> TxReceiptView {
        TxReceiptView {
            hash: h256_zero(),
            caller: (0u32, 0u128),
            to: None,
            block_number: u256_zero(),
            cumulative_gas_used: 0,
            gas_used: 0,
            contract_addresses: Set::empty(),
            logs: Seq::empty(),
            status: 0,
        }
    }
}

/// The state of one address.
#[verifier::ext_equal]
pub struct AccountState {
    pub nonce: U256,
    pub balance: U256,
    pub storage: Map<H256, H256>,
    pub code: Seq<u8>,
    pub created: bool,
}

/// The slots of `storage` that hold something other than zero.
pub open spec fn drop_zero_slots(storage: Map<H256, H256>) -> Map<H256, H256> {
    Map::new(
        |key: H256| storage.contains_key(key) && storage[key] != h256_zero(),
        |key: H256| storage[key],
    )
}

/// Writing zero to a slot removes it; writing anything else sets it.
pub open spec fn write_slot(storage: Map<H256, H256>, key: H256, value: H256) -> Map<H256, H256> {
    if value == h256_zero() {
        storage.remove(key)
    } else {
        storage.insert(key, value)
    }
}

/// The writes of `entries` made one after the other, the first one first.
pub open spec fn write_slots(storage: Map<H256, H256>, entries: Seq<(H256, H256)>) -> Map<
    H256,
    H256,
>
    decreases entries.len(),
{
    if entries.len() == 0 {
        storage
    } else {
        write_slot(
            write_slots(storage, entries.drop_last()),
            entries.last().0,
            entries.last().1,
        )
    }
}

/// Whether no slot of `storage` holds zero.
pub open spec fn no_zero_slot(storage: Map<H256, H256>) -> bool {
    forall|key: H256| storage.contains_key(key) ==> #[trigger] storage[key] != h256_zero()
}

impl AccountState {
    /// The state of an address that was never written.
    pub open spec fn fresh() -> AccountState {
        AccountState {
            nonce: u256_zero(),
            balance: u256_zero(),
            storage: Map::empty(),
            code: Seq::empty(),
            created: false,
        }
    }

    /// An account is empty when it has no balance, no nonce and no code.
    pub open spec fn is_empty(self) -> bool {
        self.balance == u256_zero() && self.nonce == u256_zero() && self.code.len() == 0
    }

    /// The account after one modify instruction. Balance and nonce are
    /// replaced; the code only where new code comes with the instruction;
    /// the storage is emptied on request, cleared of zero slots, and then
    /// written to.
    pub open spec fn modified(
        self,
        basic: Basic,
        code: Option<Seq<u8>>,
        storage: Seq<(H256, H256)>,
        reset_storage: bool,
        created: bool,
    ) -> AccountState {
        AccountState {
            nonce: basic.nonce,
            balance: basic.balance,
            storage: write_slots(
                drop_zero_slots(
                    if reset_storage {
                        Map::empty()
                    } else {
                        self.storage
                    },
                ),
                storage,
            ),
            code: match code {
                Some(new_code) => new_code,
                None => self.code,
            },
            created: self.created || created,
        }
    }
}

/// One instruction of a batch.
pub enum Change {
    Modify {
        address: H160,
        basic: Basic,
        code: Option<Seq<u8>>,
        storage: Seq<(H256, H256)>,
        reset_storage: bool,
    },
    Delete { address: H160 },
}

impl Change {
    /// The address that the instruction names.
    pub open spec fn address(self) -> H160 {
        match self {
            Change::Modify { address, .. } => address,
            Change::Delete { address } => address,
        }
    }
}

/// The account that `accounts` holds for `address`, or a fresh one.
pub open spec fn account_or_fresh(accounts: Map<H160, AccountState>, address: H160) -> AccountState {
    if accounts.contains_key(address) {
        accounts[address]
    } else {
        AccountState::fresh()
    }
}

/// A set of accounts after one modify instruction for `address`: the
/// modified account takes the address's place, unless it came out empty and
/// empty accounts are pruned, in which case the address is removed.
pub open spec fn modify_account(
    accounts: Map<H160, AccountState>,
    address: H160,
    basic: Basic,
    code: Option<Seq<u8>>,
    storage: Seq<(H256, H256)>,
    reset_storage: bool,
    created: bool,
    prune_empty: bool,
) -> Map<H160, AccountState> {
    let account = account_or_fresh(accounts, address).modified(
        basic,
        code,
        storage,
        reset_storage,
        created,
    );
    if prune_empty && account.is_empty() {
        accounts.remove(address)
    } else {
        accounts.insert(address, account)
    }
}

/// The snapshot that `archive` holds for `block`, or an empty one.
pub open spec fn snapshot_or_empty(
    archive: Map<U256, Map<H160, AccountState>>,
    block: U256,
) -> Map<H160, AccountState> {
    if archive.contains_key(block) {
        archive[block]
    } else {
        Map::empty()
    }
}

/// The logs that `logs` holds for `block`, or none.
pub open spec fn logs_or_none(logs: Map<U256, Seq<LogView>>, block: U256) -> Seq<LogView> {
    if logs.contains_key(block) {
        logs[block]
    } else {
        Seq::empty()
    }
}

/// Everything the store holds.
#[verifier::ext_equal]
pub struct WorldState {
    /// The number of the block whose state is live.
    pub tip: U256,
    /// The live accounts.
    pub accounts: Map<H160, AccountState>,
    /// The accounts written for blocks other than the tip, by block number.
    pub archive: Map<U256, Map<H160, AccountState>>,
    /// The logs of each block, in the order in which they were emitted.
    pub logs: Map<U256, Seq<LogView>>,
    /// The receipts, by transaction hash.
    pub receipts: Map<H256, TxReceiptView>,
}

impl WorldState {
    /// The accounts that a modify instruction for `block` writes to: the
    /// live ones where `block` is the tip, the block's snapshot otherwise.
    pub open spec fn accounts_of(self, block: U256) -> Map<H160, AccountState> {
        if block == self.tip {
            self.accounts
        } else {
            snapshot_or_empty(self.archive, block)
        }
    }

    /// The state after one instruction of a batch for `block`. A modify
    /// instruction goes to the live accounts when `block` is the tip and to
    /// the block's snapshot otherwise; only a write to the tip marks an
    /// account as created. A delete instruction always removes the address
    /// from the live accounts.
    pub open spec fn apply_change(
        self,
        block: U256,
        change: Change,
        created_contracts: Set<H160>,
        prune_empty: bool,
    ) -> WorldState {
        match change {
            Change::Modify { address, basic, code, storage, reset_storage } => {
                if block == self.tip {
                    WorldState {
                        accounts: modify_account(
                            self.accounts,
                            address,
                            basic,
                            code,
                            storage,
                            reset_storage,
                            created_contracts.contains(address),
                            prune_empty,
                        ),
                        ..self
                    }
                } else {
                    WorldState {
                        archive: self.archive.insert(
                            block,
                            modify_account(
                                snapshot_or_empty(self.archive, block),
                                address,
                                basic,
                                code,
                                storage,
                                reset_storage,
                                false,
                                prune_empty,
                            ),
                        ),
                        ..self
                    }
                }
            },
            Change::Delete { address } => WorldState {
                accounts: self.accounts.remove(address),
                ..self
            },
        }
    }

    /// The state after the instructions of `changes`, the first one first.
    pub open spec fn apply_changes(
        self,
        block: U256,
        changes: Seq<Change>,
        created_contracts: Set<H160>,
        prune_empty: bool,
    ) -> WorldState
        decreases changes.len(),
    {
        if changes.len() == 0 {
            self
        } else {
            self.apply_changes(
                block,
                changes.drop_last(),
                created_contracts,
                prune_empty,
            ).apply_change(block, changes.last(), created_contracts, prune_empty)
        }
    }

    /// The state after `logs` were added at the end of the logs of `block`.
    pub open spec fn append_logs(self, block: U256, logs: Seq<LogView>) -> WorldState {
        WorldState { logs: self.logs.insert(block, logs_or_none(self.logs, block) + logs), ..self }
    }

    /// The state after each receipt of `receipts`, the first one first, was
    /// stored under its hash.
    pub open spec fn record_receipts(self, receipts: Seq<TxReceiptView>) -> WorldState
        decreases receipts.len(),
    {
        if receipts.len() == 0 {
            self
        } else {
            let before = self.record_receipts(receipts.drop_last());
            WorldState {
                receipts: before.receipts.insert(receipts.last().hash, receipts.last()),
                ..before
            }
        }
    }

    /// The state after a whole batch for `block`: its changes, then its
    /// logs, then its receipts.
    pub open spec fn apply(
        self,
        block: U256,
        changes: Seq<Change>,
        logs: Seq<LogView>,
        receipts: Seq<TxReceiptView>,
        created_contracts: Set<H160>,
        prune_empty: bool,
    ) -> WorldState {
        self.apply_changes(block, changes, created_contracts, prune_empty).append_logs(
            block,
            logs,
        ).record_receipts(receipts)
    }

    /// Balance and nonce of a live account; both zero where there is none.
    pub open spec fn basic(self, address: H160) -> Basic {
        Basic {
            balance: account_or_fresh(self.accounts, address).balance,
            nonce: account_or_fresh(self.accounts, address).nonce,
        }
    }

    /// The code of a live account; empty where there is none.
    pub open spec fn code(self, address: H160) -> Seq<u8> {
        account_or_fresh(self.accounts, address).code
    }

    /// What a slot of a live account holds; zero where nothing is stored.
    pub open spec fn storage(self, address: H160, key: H256) -> H256 {
        let slots = account_or_fresh(self.accounts, address).storage;
        if slots.contains_key(key) {
            slots[key]
        } else {
            h256_zero()
        }
    }

    /// The receipt stored under `hash`; a blank one where there is none.
    pub open spec fn receipt(self, hash: H256) -> TxReceiptView {
        if self.receipts.contains_key(hash) {
            self.receipts[hash]
        } else {
            TxReceiptView::blank()
        }
    }

    /// Whether no slot of any account, live or archived, holds zero.
    pub open spec fn storage_normalized(self) -> bool {
        &&& forall|address: H160| #[trigger]
            self.accounts.contains_key(address) ==> no_zero_slot(self.accounts[address].storage)
        &&& forall|block: U256, address: H160|
            self.archive.contains_key(block) && #[trigger] self.archive[block].contains_key(
                address,
            ) ==> no_zero_slot(self.archive[block][address].storage)
    }
}

/// Whether some modify instruction of `changes` names `address`.
pub open spec fn modifies(changes: Seq<Change>, address: H160) -> bool {
    exists|i: int|
        0 <= i < changes.len() && changes[i] is Modify && (#[trigger] changes[i]).address()
            == address
}

/// Whether some delete instruction is among `changes`.
pub open spec fn deletes(changes: Seq<Change>) -> bool {
    exists|i: int| 0 <= i < changes.len() && #[trigger] changes[i] is Delete
}

} // verus!
