//! What follows from the definitions of the model: which parts of the state
//! a batch leaves alone, that it leaves no zero in the storage it writes,
//! when an empty account goes, and that logs accumulate while receipts
//! overwrite.

use crate::backend::Basic;
use crate::model::{
    account_or_fresh, deletes, drop_zero_slots, logs_or_none, modifies, no_zero_slot,
    write_slots, AccountState, Change, LogView, TxReceiptView, WorldState,
};
use crate::primitives::{h256_zero, u256_zero, H160, H256, U256};
use vstd::prelude::*;

verus! {

/// Writing to storage that holds no zero leaves no zero in it.
pub proof fn lemma_write_slots_no_zero(storage: Map<H256, H256>, entries: Seq<(H256, H256)>)
    requires
        no_zero_slot(storage),
    ensures
        no_zero_slot(write_slots(storage, entries)),
    decreases entries.len(),
{
    if entries.len() > 0 {
        lemma_write_slots_no_zero(storage, entries.drop_last());
    }
}

/// Of the writes to one slot, the last decides: where `i` is the last entry
/// of `entries` for its key, the slot is absent after the writes if that
/// entry's value is zero, and holds that value otherwise.
pub proof fn lemma_last_write_decides(
    storage: Map<H256, H256>,
    entries: Seq<(H256, H256)>,
    i: int,
)
    requires
        0 <= i < entries.len(),
        forall|j: int| i < j < entries.len() ==> (#[trigger] entries[j]).0 != entries[i].0,
    ensures
        entries[i].1 == h256_zero() ==> !write_slots(storage, entries).contains_key(entries[i].0),
        entries[i].1 != h256_zero() ==> write_slots(storage, entries).contains_key(entries[i].0)
            && write_slots(storage, entries)[entries[i].0] == entries[i].1,
    decreases entries.len(),
{
    if i < entries.len() - 1 {
        assert(entries.last() == entries[entries.len() - 1]);
        lemma_last_write_decides(storage, entries.drop_last(), i);
    }
}

/// A slot that no entry of `entries` names is after the writes what it was
/// before them.
pub proof fn lemma_unwritten_slot_stays(
    storage: Map<H256, H256>,
    entries: Seq<(H256, H256)>,
    key: H256,
)
    requires
        forall|j: int| 0 <= j < entries.len() ==> (#[trigger] entries[j]).0 != key,
    ensures
        write_slots(storage, entries).contains_key(key) == storage.contains_key(key),
        storage.contains_key(key) ==> write_slots(storage, entries)[key] == storage[key],
    decreases entries.len(),
{
    if entries.len() > 0 {
        assert(entries.last() == entries[entries.len() - 1]);
        lemma_unwritten_slot_stays(storage, entries.drop_last(), key);
    }
}

/// No slot of a modified account holds zero, whatever the account held
/// before and whatever was written.
pub proof fn lemma_modified_has_no_zero_slot(
    account: AccountState,
    basic: Basic,
    code: Option<Seq<u8>>,
    storage: Seq<(H256, H256)>,
    reset_storage: bool,
    created: bool,
)
    ensures
        no_zero_slot(account.modified(basic, code, storage, reset_storage, created).storage),
{
    let base = drop_zero_slots(
        if reset_storage {
            Map::empty()
        } else {
            account.storage
        },
    );
    lemma_write_slots_no_zero(base, storage);
}

/// One instruction leaves the tip, the logs and the receipts as they are. A
/// modify instruction for the tip leaves the archive as it is; a modify
/// instruction for another block leaves the live accounts and the snapshots
/// of all other blocks as they are.
pub proof fn lemma_apply_change_frame(
    world: WorldState,
    block: U256,
    change: Change,
    created_contracts: Set<H160>,
    prune_empty: bool,
)
    ensures
        ({
            let next = world.apply_change(block, change, created_contracts, prune_empty);
            &&& next.tip == world.tip
            &&& next.logs == world.logs
            &&& next.receipts == world.receipts
            &&& block == world.tip || change is Delete ==> next.archive == world.archive
            &&& block != world.tip && change is Modify ==> next.accounts == world.accounts
            &&& next.archive.remove(block) == world.archive.remove(block)
        }),
{
}

/// A batch of instructions leaves the tip, the logs and the receipts as they
/// are. A batch for the tip leaves the archive as it is. A batch for another
/// block leaves the snapshots of all other blocks as they are, and, where it
/// holds no delete instruction, the live accounts too.
pub proof fn lemma_apply_changes_frame(
    world: WorldState,
    block: U256,
    changes: Seq<Change>,
    created_contracts: Set<H160>,
    prune_empty: bool,
)
    ensures
        ({
            let next = world.apply_changes(block, changes, created_contracts, prune_empty);
            &&& next.tip == world.tip
            &&& next.logs == world.logs
            &&& next.receipts == world.receipts
            &&& block == world.tip ==> next.archive == world.archive
            &&& block != world.tip && !deletes(changes) ==> next.accounts == world.accounts
            &&& next.archive.remove(block) == world.archive.remove(block)
        }),
    decreases changes.len(),
{
    if changes.len() > 0 {
        let before = world.apply_changes(
            block,
            changes.drop_last(),
            created_contracts,
            prune_empty,
        );
        lemma_apply_changes_frame(
            world,
            block,
            changes.drop_last(),
            created_contracts,
            prune_empty,
        );
        lemma_apply_change_frame(before, block, changes.last(), created_contracts, prune_empty);
        if !deletes(changes) {
            assert(!(changes[changes.len() - 1] is Delete));
            assert(!deletes(changes.drop_last())) by {
                if deletes(changes.drop_last()) {
                    let i = choose|i: int|
                        0 <= i < changes.drop_last().len() && #[trigger] changes.drop_last()[i] is Delete;
                    assert(changes[i] is Delete);
                }
            }
        }
    }
}

/// Recording receipts changes nothing but the receipts.
pub proof fn lemma_record_receipts_frame(world: WorldState, receipts: Seq<TxReceiptView>)
    ensures
        ({
            let next = world.record_receipts(receipts);
            &&& next.tip == world.tip
            &&& next.accounts == world.accounts
            &&& next.archive == world.archive
            &&& next.logs == world.logs
        }),
    decreases receipts.len(),
{
    if receipts.len() > 0 {
        lemma_record_receipts_frame(world, receipts.drop_last());
    }
}

/// Instructions never bring a zero slot into a state that holds none.
pub proof fn lemma_apply_changes_keeps_normalized(
    world: WorldState,
    block: U256,
    changes: Seq<Change>,
    created_contracts: Set<H160>,
    prune_empty: bool,
)
    requires
        world.storage_normalized(),
    ensures
        world.apply_changes(block, changes, created_contracts, prune_empty).storage_normalized(),
    decreases changes.len(),
{
    if changes.len() > 0 {
        let before = world.apply_changes(
            block,
            changes.drop_last(),
            created_contracts,
            prune_empty,
        );
        lemma_apply_changes_keeps_normalized(
            world,
            block,
            changes.drop_last(),
            created_contracts,
            prune_empty,
        );
        match changes.last() {
            Change::Modify { address, basic, code, storage, reset_storage } => {
                lemma_modified_has_no_zero_slot(
                    account_or_fresh(before.accounts_of(block), address),
                    basic,
                    code,
                    storage,
                    reset_storage,
                    block == before.tip && created_contracts.contains(address),
                );
            },
            Change::Delete { .. } => {},
        }
    }
}

/// Applying a batch to a state in which no slot holds zero gives a state in
/// which no slot holds zero.
pub proof fn lemma_apply_keeps_normalized(
    world: WorldState,
    block: U256,
    changes: Seq<Change>,
    logs: Seq<LogView>,
    receipts: Seq<TxReceiptView>,
    created_contracts: Set<H160>,
    prune_empty: bool,
)
    requires
        world.storage_normalized(),
    ensures
        world.apply(
            block,
            changes,
            logs,
            receipts,
            created_contracts,
            prune_empty,
        ).storage_normalized(),
{
    let changed = world.apply_changes(block, changes, created_contracts, prune_empty);
    lemma_apply_changes_keeps_normalized(world, block, changes, created_contracts, prune_empty);
    lemma_record_receipts_frame(changed.append_logs(block, logs), receipts);
}

/// An address that no instruction of a batch names is left as it was, among
/// the live accounts and among those of `block`.
pub proof fn lemma_unnamed_address_stays(
    world: WorldState,
    block: U256,
    changes: Seq<Change>,
    created_contracts: Set<H160>,
    prune_empty: bool,
    address: H160,
)
    requires
        forall|j: int| 0 <= j < changes.len() ==> (#[trigger] changes[j]).address() != address,
    ensures
        ({
            let next = world.apply_changes(block, changes, created_contracts, prune_empty);
            &&& next.accounts.contains_key(address) == world.accounts.contains_key(address)
            &&& next.accounts.contains_key(address) ==> next.accounts[address]
                == world.accounts[address]
            &&& next.accounts_of(block).contains_key(address) == world.accounts_of(
                block,
            ).contains_key(address)
            &&& next.accounts_of(block).contains_key(address) ==> next.accounts_of(block)[address]
                == world.accounts_of(block)[address]
        }),
    decreases changes.len(),
{
    if changes.len() > 0 {
        let shorter = changes.drop_last();
        assert(changes.last() == changes[changes.len() - 1]);
        lemma_unnamed_address_stays(
            world,
            block,
            shorter,
            created_contracts,
            prune_empty,
            address,
        );
        lemma_apply_changes_frame(world, block, shorter, created_contracts, prune_empty);
    }
}

/// What an instruction does to the address that it names is not undone by
/// instructions for other addresses: where no instruction after the `i`-th
/// names the address of the `i`-th, that address is after the batch what it
/// was right after the `i`-th instruction, among the live accounts and among
/// those of `block`.
pub proof fn lemma_last_instruction_decides(
    world: WorldState,
    block: U256,
    changes: Seq<Change>,
    created_contracts: Set<H160>,
    prune_empty: bool,
    i: int,
)
    requires
        0 <= i < changes.len(),
        forall|j: int|
            i < j < changes.len() ==> (#[trigger] changes[j]).address() != changes[i].address(),
    ensures
        ({
            let address = changes[i].address();
            let settled = world.apply_changes(
                block,
                changes.take(i + 1),
                created_contracts,
                prune_empty,
            );
            let next = world.apply_changes(block, changes, created_contracts, prune_empty);
            &&& next.accounts.contains_key(address) == settled.accounts.contains_key(address)
            &&& next.accounts.contains_key(address) ==> next.accounts[address]
                == settled.accounts[address]
            &&& next.accounts_of(block).contains_key(address) == settled.accounts_of(
                block,
            ).contains_key(address)
            &&& next.accounts_of(block).contains_key(address) ==> next.accounts_of(block)[address]
                == settled.accounts_of(block)[address]
        }),
    decreases changes.len(),
{
    if i == changes.len() - 1 {
        assert(changes.take(i + 1) == changes);
    } else {
        let shorter = changes.drop_last();
        assert(shorter.take(i + 1) == changes.take(i + 1));
        assert(changes.last() == changes[changes.len() - 1]);
        lemma_last_instruction_decides(
            world,
            block,
            shorter,
            created_contracts,
            prune_empty,
            i,
        );
        lemma_apply_changes_frame(world, block, shorter, created_contracts, prune_empty);
    }
}

/// After the instructions of a batch, no slot of an account that one of
/// them has modified holds zero.
proof fn lemma_changes_leave_no_zero(
    world: WorldState,
    block: U256,
    changes: Seq<Change>,
    created_contracts: Set<H160>,
    prune_empty: bool,
    address: H160,
)
    requires
        modifies(changes, address),
    ensures
        ({
            let next = world.apply_changes(block, changes, created_contracts, prune_empty);
            next.accounts_of(block).contains_key(address) ==> no_zero_slot(
                next.accounts_of(block)[address].storage,
            )
        }),
    decreases changes.len(),
{
    let shorter = changes.drop_last();
    let before = world.apply_changes(block, shorter, created_contracts, prune_empty);
    lemma_apply_changes_frame(world, block, shorter, created_contracts, prune_empty);
    match changes.last() {
        Change::Modify { address: written, basic, code, storage, reset_storage } => {
            lemma_modified_has_no_zero_slot(
                account_or_fresh(before.accounts_of(block), written),
                basic,
                code,
                storage,
                reset_storage,
                block == before.tip && created_contracts.contains(written),
            );
        },
        Change::Delete { .. } => {},
    }
    if !(changes.last() is Modify && changes.last().address() == address) {
        let i = choose|i: int|
            0 <= i < changes.len() && changes[i] is Modify && (#[trigger] changes[i]).address()
                == address;
        assert(shorter[i] == changes[i]);
        lemma_changes_leave_no_zero(
            world,
            block,
            shorter,
            created_contracts,
            prune_empty,
            address,
        );
    }
}

/// A batch changes the accounts as its instructions say, and nothing else
/// of the accounts: the tip stays; a batch for the tip leaves the archive as
/// it is; a batch for another block leaves the snapshots of all other blocks
/// as they are and, where it holds no delete instruction, the live accounts
/// too.
pub proof fn lemma_apply_frame(
    world: WorldState,
    block: U256,
    changes: Seq<Change>,
    logs: Seq<LogView>,
    receipts: Seq<TxReceiptView>,
    created_contracts: Set<H160>,
    prune_empty: bool,
)
    ensures
        ({
            let changed = world.apply_changes(block, changes, created_contracts, prune_empty);
            let next = world.apply(
                block,
                changes,
                logs,
                receipts,
                created_contracts,
                prune_empty,
            );
            &&& next.tip == world.tip
            &&& next.accounts == changed.accounts
            &&& next.archive == changed.archive
            &&& next.accounts_of(block) == changed.accounts_of(block)
            &&& block == world.tip ==> next.archive == world.archive
            &&& block != world.tip && !deletes(changes) ==> next.accounts == world.accounts
            &&& next.archive.remove(block) == world.archive.remove(block)
        }),
{
    let changed = world.apply_changes(block, changes, created_contracts, prune_empty);
    lemma_apply_changes_frame(world, block, changes, created_contracts, prune_empty);
    lemma_record_receipts_frame(changed.append_logs(block, logs), receipts);
}

/// After a batch, no slot of an account that the batch has modified holds
/// zero, whatever the state held before: among the accounts that the batch
/// writes to, an address that one of its modify instructions names is
/// either absent or has only slots that hold something other than zero.
pub proof fn lemma_modified_accounts_hold_no_zero(
    world: WorldState,
    block: U256,
    changes: Seq<Change>,
    logs: Seq<LogView>,
    receipts: Seq<TxReceiptView>,
    created_contracts: Set<H160>,
    prune_empty: bool,
    address: H160,
)
    requires
        modifies(changes, address),
    ensures
        ({
            let next = world.apply(
                block,
                changes,
                logs,
                receipts,
                created_contracts,
                prune_empty,
            );
            next.accounts_of(block).contains_key(address) ==> no_zero_slot(
                next.accounts_of(block)[address].storage,
            )
        }),
{
    lemma_changes_leave_no_zero(world, block, changes, created_contracts, prune_empty, address);
    lemma_apply_frame(world, block, changes, logs, receipts, created_contracts, prune_empty);
}

/// What a modify instruction leaves of its address, where no later
/// instruction of the batch names that address. If the modified account is
/// empty and empty accounts are pruned, the address is gone from the
/// accounts that the batch writes to. Otherwise it is there and holds the
/// modified account, an empty one included: after a batch for the tip that
/// does not prune, an account that came out empty exists and answers with
/// zero balance and zero nonce.
pub proof fn lemma_empty_account_pruned(
    world: WorldState,
    block: U256,
    changes: Seq<Change>,
    logs: Seq<LogView>,
    receipts: Seq<TxReceiptView>,
    created_contracts: Set<H160>,
    prune_empty: bool,
    i: int,
)
    requires
        0 <= i < changes.len(),
        changes[i] is Modify,
        forall|j: int|
            i < j < changes.len() ==> (#[trigger] changes[j]).address() != changes[i].address(),
    ensures
        ({
            let address = changes[i].address();
            let before = world.apply_changes(
                block,
                changes.take(i),
                created_contracts,
                prune_empty,
            );
            let account = account_or_fresh(before.accounts_of(block), address).modified(
                changes[i]->basic,
                changes[i]->code,
                changes[i]->storage,
                changes[i]->reset_storage,
                block == world.tip && created_contracts.contains(address),
            );
            let next = world.apply(
                block,
                changes,
                logs,
                receipts,
                created_contracts,
                prune_empty,
            );
            &&& prune_empty && account.is_empty() ==> !next.accounts_of(block).contains_key(
                address,
            )
            &&& !(prune_empty && account.is_empty()) ==> next.accounts_of(block).contains_key(
                address,
            ) && next.accounts_of(block)[address] == account
            &&& block == world.tip && !prune_empty && account.is_empty()
                ==> next.accounts.contains_key(address) && next.basic(address) == (Basic {
                balance: u256_zero(),
                nonce: u256_zero(),
            })
        }),
{
    lemma_last_instruction_decides(world, block, changes, created_contracts, prune_empty, i);
    lemma_apply_changes_frame(world, block, changes.take(i), created_contracts, prune_empty);
    lemma_apply_frame(world, block, changes, logs, receipts, created_contracts, prune_empty);
    assert(changes.take(i + 1).drop_last() == changes.take(i));
    assert(changes.take(i + 1).last() == changes[i]);
}

/// A batch adds its logs at the end of the logs of its block and leaves the
/// logs of all other blocks as they are.
pub proof fn lemma_apply_appends_logs(
    world: WorldState,
    block: U256,
    changes: Seq<Change>,
    logs: Seq<LogView>,
    receipts: Seq<TxReceiptView>,
    created_contracts: Set<H160>,
    prune_empty: bool,
)
    ensures
        world.apply(block, changes, logs, receipts, created_contracts, prune_empty).logs
            == world.logs.insert(block, logs_or_none(world.logs, block) + logs),
{
    let changed = world.apply_changes(block, changes, created_contracts, prune_empty);
    lemma_apply_changes_frame(world, block, changes, created_contracts, prune_empty);
    lemma_record_receipts_frame(changed.append_logs(block, logs), receipts);
}

/// The logs of two batches for one block accumulate: after both, the block
/// has the logs it had before, then those of the first batch, then those of
/// the second.
pub proof fn lemma_logs_accumulate(
    world: WorldState,
    block: U256,
    first_changes: Seq<Change>,
    first_logs: Seq<LogView>,
    first_receipts: Seq<TxReceiptView>,
    first_created: Set<H160>,
    first_prune: bool,
    second_changes: Seq<Change>,
    second_logs: Seq<LogView>,
    second_receipts: Seq<TxReceiptView>,
    second_created: Set<H160>,
    second_prune: bool,
)
    ensures
        ({
            let next = world.apply(
                block,
                first_changes,
                first_logs,
                first_receipts,
                first_created,
                first_prune,
            ).apply(
                block,
                second_changes,
                second_logs,
                second_receipts,
                second_created,
                second_prune,
            );
            &&& next.logs.contains_key(block)
            &&& next.logs[block] == logs_or_none(world.logs, block) + first_logs + second_logs
        }),
{
    let middle = world.apply(
        block,
        first_changes,
        first_logs,
        first_receipts,
        first_created,
        first_prune,
    );
    lemma_apply_appends_logs(
        world,
        block,
        first_changes,
        first_logs,
        first_receipts,
        first_created,
        first_prune,
    );
    lemma_apply_appends_logs(
        middle,
        block,
        second_changes,
        second_logs,
        second_receipts,
        second_created,
        second_prune,
    );
}

/// Of the receipts recorded under one hash, the last stays: where `i` is the
/// last receipt of `receipts` with its hash, that receipt is stored under
/// the hash afterwards, whatever was stored under it before.
pub proof fn lemma_last_receipt_wins(world: WorldState, receipts: Seq<TxReceiptView>, i: int)
    requires
        0 <= i < receipts.len(),
        forall|j: int| i < j < receipts.len() ==> (#[trigger] receipts[j]).hash != receipts[i].hash,
    ensures
        world.record_receipts(receipts).receipts.contains_key(receipts[i].hash),
        world.record_receipts(receipts).receipts[receipts[i].hash] == receipts[i],
    decreases receipts.len(),
{
    if i < receipts.len() - 1 {
        assert(receipts.last() == receipts[receipts.len() - 1]);
        lemma_last_receipt_wins(world, receipts.drop_last(), i);
    }
}

/// A hash under which no receipt of `receipts` is recorded holds afterwards
/// what it held before.
pub proof fn lemma_other_receipts_stay(
    world: WorldState,
    receipts: Seq<TxReceiptView>,
    hash: H256,
)
    requires
        forall|j: int| 0 <= j < receipts.len() ==> (#[trigger] receipts[j]).hash != hash,
    ensures
        world.record_receipts(receipts).receipt(hash) == world.receipt(hash),
        world.record_receipts(receipts).receipts.contains_key(hash) == world.receipts.contains_key(
            hash,
        ),
    decreases receipts.len(),
{
    if receipts.len() > 0 {
        assert(receipts.last() == receipts[receipts.len() - 1]);
        lemma_other_receipts_stay(world, receipts.drop_last(), hash);
    }
}

/// A receipt recorded twice under one hash, in one batch or in two, keeps
/// only what was recorded last: after a batch, the hash of the batch's last
/// receipt for that hash answers with that receipt.
pub proof fn lemma_apply_overwrites_receipt(
    world: WorldState,
    block: U256,
    changes: Seq<Change>,
    logs: Seq<LogView>,
    receipts: Seq<TxReceiptView>,
    created_contracts: Set<H160>,
    prune_empty: bool,
    i: int,
)
    requires
        0 <= i < receipts.len(),
        forall|j: int| i < j < receipts.len() ==> (#[trigger] receipts[j]).hash != receipts[i].hash,
    ensures
        world.apply(block, changes, logs, receipts, created_contracts, prune_empty).receipt(
            receipts[i].hash,
        ) == receipts[i],
{
    lemma_last_receipt_wins(
        world.apply_changes(block, changes, created_contracts, prune_empty).append_logs(
            block,
            logs,
        ),
        receipts,
        i,
    );
}

} // verus!
