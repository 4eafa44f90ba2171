//! Finding the change of a transaction: the outputs that hand capacity
//! back to the deployer, which the next transaction of the batch may spend
//! before the ledger has confirmed them.

use crate::types::{
    views, LiveCell, LiveCellView, Script, ScriptView, TransactionRecord, TransactionRecordView,
};
use vstd::prelude::*;

verus! {

/// Output `i` is change when the wallet's lock guards it, it holds no data
/// and it has no type script.
pub open spec fn is_change(tx: TransactionRecordView, i: int, wallet_lock: ScriptView) -> bool {
    &&& tx.outputs[i].lock == wallet_lock
    &&& tx.outputs_data[i].len() == 0
    &&& tx.outputs[i].type_ is None
}

/// Output `i` of `tx` as a live cell.
pub open spec fn change_cell(tx: TransactionRecordView, i: int) -> LiveCellView {
    LiveCellView {
        tx_hash: tx.hash,
        index: i as u32,
        capacity: tx.outputs[i].capacity,
        mature: true,
    }
}

/// The change among the first `n` outputs, in the order of the outputs.
pub open spec fn changes_upto(tx: TransactionRecordView, wallet_lock: ScriptView, n: nat) -> Seq<
    LiveCellView,
>
    decreases n,
{
    if n == 0 {
        Seq::empty()
    } else if is_change(tx, n - 1, wallet_lock) {
        changes_upto(tx, wallet_lock, (n - 1) as nat).push(change_cell(tx, n - 1))
    } else {
        changes_upto(tx, wallet_lock, (n - 1) as nat)
    }
}

/// All the change of a transaction.
pub open spec fn changes_of(tx: TransactionRecordView, wallet_lock: ScriptView) -> Seq<
    LiveCellView,
> {
    changes_upto(tx, wallet_lock, tx.paired())
}

/// Returns the change of `tx`, in the order of its outputs, each as a
/// mature live cell.
pub fn search_changes(tx: &TransactionRecord, wallet_lock: &Script) -> (r: Vec<LiveCell>)
    requires
        tx@.paired() <= u32::MAX,
    ensures
        views(r@) == changes_of(tx@, wallet_lock@),
{
    let n: usize = if tx.outputs.len() <= tx.outputs_data.len() {
        tx.outputs.len()
    } else {
        tx.outputs_data.len()
    };
    let mut out: Vec<LiveCell> = Vec::new();
    let mut i: usize = 0;
    while i < n
        invariant
            i <= n,
            n == tx@.paired(),
            n <= u32::MAX,
            n <= tx.outputs.len(),
            n <= tx.outputs_data.len(),
            views(out@) == changes_upto(tx@, wallet_lock@, i as nat),
        decreases n - i,
    {
        let output = &tx.outputs[i];
        if output.lock.equals(wallet_lock) && tx.outputs_data[i].len() == 0
            && output.type_.is_none() {
            let index: u32 = i as u32;
            let cell =
                LiveCell { tx_hash: tx.hash, index, capacity: output.capacity, mature: true };
            out.push(cell);
        }
        i += 1;
    }
    out
}

/// `cell` stands for one of the first `n` outputs of `tx`, and that output
/// is change.
pub open spec fn is_change_cell(
    tx: TransactionRecordView,
    wallet_lock: ScriptView,
    n: nat,
    cell: LiveCellView,
) -> bool {
    exists|i: int| 0 <= i < n && is_change(tx, i, wallet_lock) && cell == change_cell(tx, i)
}

/// The changes are exactly the outputs that are change: every cell among
/// them is such an output, and every such output is among them.
pub proof fn lemma_changes_exact(tx: TransactionRecordView, wallet_lock: ScriptView, n: nat)
    ensures
        forall|cell: LiveCellView|
            #[trigger] changes_upto(tx, wallet_lock, n).contains(cell) <==> is_change_cell(
                tx,
                wallet_lock,
                n,
                cell,
            ),
    decreases n,
{
    let cur = changes_upto(tx, wallet_lock, n);
    if n == 0 {
        assert forall|cell: LiveCellView| #[trigger] cur.contains(cell) <==> is_change_cell(
            tx,
            wallet_lock,
            n,
            cell,
        ) by {}
    } else {
        let m = (n - 1) as nat;
        let prev = changes_upto(tx, wallet_lock, m);
        lemma_changes_exact(tx, wallet_lock, m);
        assert forall|cell: LiveCellView| #[trigger] cur.contains(cell) <==> is_change_cell(
            tx,
            wallet_lock,
            n,
            cell,
        ) by {
            if cur.contains(cell) {
                let k = choose|k: int| 0 <= k < cur.len() && cur[k] == cell;
                if k < prev.len() {
                    assert(prev.contains(cell));
                    let i = choose|i: int|
                        0 <= i < m && is_change(tx, i, wallet_lock) && cell == change_cell(tx, i);
                    assert(0 <= i < n && is_change(tx, i, wallet_lock) && cell == change_cell(
                        tx,
                        i,
                    ));
                }
            }
            if is_change_cell(tx, wallet_lock, n, cell) {
                let i = choose|i: int|
                    0 <= i < n && is_change(tx, i, wallet_lock) && cell == change_cell(tx, i);
                if i < m {
                    assert(prev.contains(cell));
                    let k = choose|k: int| 0 <= k < prev.len() && prev[k] == cell;
                    assert(cur[k] == cell);
                } else {
                    assert(cur[cur.len() - 1] == cell);
                }
            }
        }
    }
}

/// Output `j` is the change of the lowest index.
pub open spec fn is_lowest_change(
    tx: TransactionRecordView,
    wallet_lock: ScriptView,
    j: int,
) -> bool {
    &&& 0 <= j
    &&& is_change(tx, j, wallet_lock)
    &&& forall|i: int| 0 <= i < j ==> !is_change(tx, i, wallet_lock)
}

/// The first of the changes is the change of the lowest index.
pub proof fn lemma_first_change_is_lowest(
    tx: TransactionRecordView,
    wallet_lock: ScriptView,
    n: nat,
)
    requires
        changes_upto(tx, wallet_lock, n).len() > 0,
    ensures
        exists|j: int|
            j < n && #[trigger] is_lowest_change(tx, wallet_lock, j) && changes_upto(
                tx,
                wallet_lock,
                n,
            )[0] == change_cell(tx, j),
    decreases n,
{
    let m = (n - 1) as nat;
    let prev = changes_upto(tx, wallet_lock, m);
    if prev.len() > 0 {
        lemma_first_change_is_lowest(tx, wallet_lock, m);
        let j = choose|j: int|
            j < m && #[trigger] is_lowest_change(tx, wallet_lock, j) && prev[0] == change_cell(
                tx,
                j,
            );
        assert(j < n && is_lowest_change(tx, wallet_lock, j));
    } else {
        lemma_changes_exact(tx, wallet_lock, m);
        assert forall|i: int| 0 <= i < m implies !is_change(tx, i, wallet_lock) by {
            if is_change(tx, i, wallet_lock) {
                assert(is_change_cell(tx, wallet_lock, m, change_cell(tx, i)));
                assert(prev.contains(change_cell(tx, i)));
            }
        }
        assert(is_lowest_change(tx, wallet_lock, n - 1));
    }
}

/// A transaction none of whose outputs is change offers no change.
pub proof fn lemma_no_change(tx: TransactionRecordView, wallet_lock: ScriptView, n: nat)
    requires
        forall|i: int| 0 <= i < n ==> !is_change(tx, i, wallet_lock),
    ensures
        changes_upto(tx, wallet_lock, n) == Seq::<LiveCellView>::empty(),
    decreases n,
{
    if n > 0 {
        lemma_no_change(tx, wallet_lock, (n - 1) as nat);
    }
}

} // verus!
