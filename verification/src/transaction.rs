//! Assembling the transaction that deploys one artifact, checking what the
//! wallet made of it, and recording the artifact in the manifest.

use crate::config::{Cell, CellView, DepGroup, DepGroupView, PreInput, PreInputView};
use crate::error::{DeployError, DeployErrorView};
use crate::ledger::{
    data_hash, data_hash_of, encode_out_points, occupied_capacity, occupied_shannons,
    out_points_bytes, script_hash, script_hash_of,
};
use crate::lookup::{find_pre_input, first_index, pre_input_named};
use crate::recipe::{CellRecipe, CellRecipeView, DepGroupRecipe, DepGroupRecipeView};
use crate::types::{
    bytes_eq, copy_bytes, lemma_views_add, script_opt_copy, script_opt_view,
    views, CellInput, CellInputView, CellOutput, CellOutputView, LiveCell, LiveCellView, OutPoint,
    OutPointView, Script, ScriptView, TransactionDraft, TransactionDraftView, TransactionRecord,
    TransactionRecordView,
};
use vstd::prelude::*;

verus! {

/// A draft with the capacity that its chosen inputs bring: what the wallet
/// needs to know to fund the transaction.
#[derive(Clone, Debug, PartialEq, Eq)]
pub struct FundingRequest {
    pub draft: TransactionDraft,
    pub inputs_capacity: u64,
}

pub ghost struct FundingRequestView {
    pub draft: TransactionDraftView,
    pub inputs_capacity: u64,
}

impl View for FundingRequest {
    type V = FundingRequestView;

    open spec fn view(&self) -> FundingRequestView {
        FundingRequestView { draft: self.draft@, inputs_capacity: self.inputs_capacity }
    }
}

/// The pre-selected input of an artifact: the first one that bears its
/// name, if any does.
pub open spec fn pre_selected(pre_inputs: Seq<PreInputView>, name: Seq<char>) -> Seq<LiveCellView> {
    match first_index(pre_inputs, pre_input_named(name)) {
        Some(i) => seq![pre_inputs[i].cell],
        None => Seq::empty(),
    }
}

/// The inputs offered to the transaction of an artifact: its pre-selected
/// input, then the change of the transaction built just before.
pub open spec fn candidate_inputs(
    pre_inputs: Seq<PreInputView>,
    name: Seq<char>,
    change: Seq<LiveCellView>,
) -> Seq<LiveCellView> {
    pre_selected(pre_inputs, name) + change
}

/// Gathers the inputs offered to the transaction of the artifact `name`,
/// where `change` is the change of the transaction built just before.
pub fn gather_inputs(pre_inputs: &Vec<PreInput>, name: &String, change: &Vec<LiveCell>) -> (r: Vec<
    LiveCell,
>)
    ensures
        views(r@) == candidate_inputs(views(pre_inputs@), name@, views(change@)),
{
    let mut inputs: Vec<LiveCell> = Vec::new();
    if let Some(i) = find_pre_input(pre_inputs, name) {
        inputs.push(pre_inputs[i].cell);
    }
    let ghost before = inputs@;
    let mut k: usize = 0;
    while k < change.len()
        invariant
            k <= change.len(),
            inputs@ == before + change@.subrange(0, k as int),
        decreases change.len() - k,
    {
        inputs.push(change[k]);
        k += 1;
    }
    proof {
        lemma_views_add(before, change@);
    }
    inputs
}

/// The capacity that live cells hold together.
pub open spec fn total_capacity(cells: Seq<LiveCellView>) -> nat
    decreases cells.len(),
{
    if cells.len() == 0 {
        0
    } else {
        total_capacity(cells.drop_last()) + cells.last().capacity as nat
    }
}

/// Sums the capacity of live cells. Absent when the sum does not fit in 64
/// bits.
pub fn sum_capacity(cells: &Vec<LiveCell>) -> (r: Option<u64>)
    ensures
        r == if total_capacity(views(cells@)) <= u64::MAX {
            Some(total_capacity(views(cells@)) as u64)
        } else {
            None
        },
{
    let ghost all = views(cells@);
    let mut sum: u64 = 0;
    let mut i: usize = 0;
    while i < cells.len()
        invariant
            i <= cells.len(),
            all == views(cells@),
            sum == total_capacity(all.subrange(0, i as int)),
        decreases cells.len() - i,
    {
        proof {
            assert(all.subrange(0, i + 1).drop_last() =~= all.subrange(0, i as int));
            lemma_total_capacity_grows(all, i + 1, all.len() as int);
        }
        match sum.checked_add(cells[i].capacity) {
            Some(next) => {
                sum = next;
            },
            None => {
                proof {
                    assert(all.subrange(0, all.len() as int) =~= all);
                }
                return None;
            },
        }
        i += 1;
    }
    assert(all.subrange(0, cells.len() as int) =~= all);
    Some(sum)
}

/// The capacity of the first `i` cells is no more than that of the first
/// `j`, for `i` up to `j`.
pub proof fn lemma_total_capacity_grows(cells: Seq<LiveCellView>, i: int, j: int)
    requires
        0 <= i <= j <= cells.len(),
    ensures
        total_capacity(cells.subrange(0, i)) <= total_capacity(cells.subrange(0, j)),
    decreases j - i,
{
    if i < j {
        lemma_total_capacity_grows(cells, i, j - 1);
        assert(cells.subrange(0, j).drop_last() =~= cells.subrange(0, j - 1));
    }
}

/// The inputs that spend the given live cells, in order.
pub open spec fn inputs_of(cells: Seq<LiveCellView>) -> Seq<CellInputView> {
    Seq::new(cells.len(), |i: int| cells[i].input())
}

/// The out-points of the given live cells, in order.
pub open spec fn out_points_of(cells: Seq<LiveCellView>) -> Seq<OutPointView> {
    Seq::new(cells.len(), |i: int| cells[i].out_point())
}

/// The inputs that spend the given live cells.
pub fn make_inputs(cells: &Vec<LiveCell>) -> (r: Vec<CellInput>)
    ensures
        views(r@) == inputs_of(views(cells@)),
{
    let mut out: Vec<CellInput> = Vec::new();
    let mut i: usize = 0;
    while i < cells.len()
        invariant
            i <= cells.len(),
            out.len() == i,
            forall|j: int| 0 <= j < i ==> (#[trigger] out@[j])@ == cells@[j]@.input(),
        decreases cells.len() - i,
    {
        out.push(cells[i].input());
        i += 1;
    }
    out
}

/// The out-points of the given live cells.
pub fn make_out_points(cells: &Vec<LiveCell>) -> (r: Vec<OutPoint>)
    ensures
        views(r@) == out_points_of(views(cells@)),
{
    let mut out: Vec<OutPoint> = Vec::new();
    let mut i: usize = 0;
    while i < cells.len()
        invariant
            i <= cells.len(),
            out.len() == i,
            forall|j: int| 0 <= j < i ==> (#[trigger] out@[j])@ == cells@[j]@.out_point(),
        decreases cells.len() - i,
    {
        out.push(cells[i].out_point());
        i += 1;
    }
    out
}

/// The request for a transaction with one output: the output is guarded by
/// `lock`, carries `type_script` and `data`, and locks exactly the capacity
/// that it occupies. There is none when that capacity, or the capacity of
/// the inputs, does not fit in 64 bits.
pub open spec fn funding_request(
    lock: ScriptView,
    type_script: Option<ScriptView>,
    data: Seq<u8>,
    inputs: Seq<LiveCellView>,
) -> Result<FundingRequestView, DeployErrorView> {
    let capacity = occupied_shannons(lock, type_script, data.len());
    if capacity > u64::MAX || total_capacity(inputs) > u64::MAX {
        Err(DeployErrorView::CapacityOverflow)
    } else {
        Ok(
            FundingRequestView {
                draft: TransactionDraftView {
                    inputs: inputs_of(inputs),
                    output: CellOutputView { capacity: capacity as u64, lock, type_: type_script },
                    output_data: data,
                },
                inputs_capacity: total_capacity(inputs) as u64,
            },
        )
    }
}

/// The view of the result of assembling a transaction.
pub open spec fn request_result_view(r: Result<FundingRequest, DeployError>) -> Result<
    FundingRequestView,
    DeployErrorView,
> {
    match r {
        Ok(request) => Ok(request@),
        Err(e) => Err(e@),
    }
}

/// Assembles the transaction with the one output described.
pub fn assemble(
    lock: &Script,
    type_script: &Option<Script>,
    data: &Vec<u8>,
    inputs: &Vec<LiveCell>,
) -> (r: Result<FundingRequest, DeployError>)
    ensures
        request_result_view(r) == funding_request(
            lock@,
            script_opt_view(*type_script),
            data@,
            views(inputs@),
        ),
{
    let capacity = match occupied_capacity(lock, type_script, data.len()) {
        Some(c) => c,
        None => {
            return Err(DeployError::CapacityOverflow);
        },
    };
    let inputs_capacity = match sum_capacity(inputs) {
        Some(c) => c,
        None => {
            return Err(DeployError::CapacityOverflow);
        },
    };
    let output = CellOutput { capacity, lock: lock.copy(), type_: script_opt_copy(type_script) };
    let draft = TransactionDraft {
        inputs: make_inputs(inputs),
        output,
        output_data: copy_bytes(data),
    };
    Ok(FundingRequest { draft, inputs_capacity })
}

/// The request for the transaction that deploys a cell: its output is
/// guarded by `lock`, the deployer's lock, holds the cell's data and
/// carries `type_script`.
pub open spec fn cell_request(
    lock: ScriptView,
    data: Seq<u8>,
    inputs: Seq<LiveCellView>,
    type_script: Option<ScriptView>,
) -> Result<FundingRequestView, DeployErrorView> {
    funding_request(lock, type_script, data, inputs)
}

/// Assembles the transaction that deploys a cell with `data` under the
/// deployer's `lock`, spending `inputs`, its output carrying
/// `type_script`.
pub fn build_cell_tx(
    lock: &Script,
    data: &Vec<u8>,
    inputs: &Vec<LiveCell>,
    type_script: &Option<Script>,
) -> (r: Result<FundingRequest, DeployError>)
    ensures
        request_result_view(r) == cell_request(
            lock@,
            data@,
            views(inputs@),
            script_opt_view(*type_script),
        ),
{
    assemble(lock, type_script, data, inputs)
}

/// The request for the transaction that deploys a dependency group: its
/// output is guarded by `lock`, has no type script, and holds the bytes of
/// the out-points.
pub open spec fn dep_group_request(
    lock: ScriptView,
    points: Seq<OutPointView>,
    inputs: Seq<LiveCellView>,
) -> Result<FundingRequestView, DeployErrorView> {
    funding_request(lock, None, out_points_bytes(points), inputs)
}

/// Assembles the transaction that deploys a dependency group which refers
/// to `points`, spending `inputs`.
pub fn build_dep_group_tx(lock: &Script, points: &Vec<OutPoint>, inputs: &Vec<LiveCell>) -> (r:
    Result<FundingRequest, DeployError>)
    ensures
        request_result_view(r) == dep_group_request(lock@, views(points@), views(inputs@)),
{
    let data = encode_out_points(points);
    assemble(lock, &None, &data, inputs)
}

/// The wallet's transaction completes a draft when it starts with the
/// draft's inputs, in their order, when its first output and that output's
/// data are the draft's, and when every output has its data and an index
/// that fits in 32 bits.
pub open spec fn completes(draft: TransactionDraftView, tx: TransactionRecordView) -> bool {
    &&& draft.inputs.len() <= tx.inputs.len()
    &&& tx.inputs.subrange(0, draft.inputs.len() as int) == draft.inputs
    &&& 1 <= tx.outputs.len() <= u32::MAX
    &&& tx.outputs_data.len() == tx.outputs.len()
    &&& tx.outputs[0] == draft.output
    &&& tx.outputs_data[0] == draft.output_data
}

/// Tells whether `tx` completes `draft`.
pub fn check_completion(draft: &TransactionDraft, tx: &TransactionRecord) -> (r: bool)
    ensures
        r == completes(draft@, tx@),
{
    if draft.inputs.len() > tx.inputs.len() {
        return false;
    }
    let mut i: usize = 0;
    while i < draft.inputs.len()
        invariant
            i <= draft.inputs.len(),
            draft.inputs.len() <= tx.inputs.len(),
            forall|j: int| 0 <= j < i ==> tx@.inputs[j] == draft@.inputs[j],
        decreases draft.inputs.len() - i,
    {
        if !tx.inputs[i].equals(&draft.inputs[i]) {
            assert(tx@.inputs.subrange(0, draft@.inputs.len() as int)[i as int]
                != draft@.inputs[i as int]);
            return false;
        }
        i += 1;
    }
    assert(tx@.inputs.subrange(0, draft@.inputs.len() as int) =~= draft@.inputs);
    if tx.outputs.len() < 1 || tx.outputs.len() > 0xffff_ffff || tx.outputs_data.len()
        != tx.outputs.len() {
        return false;
    }
    tx.outputs[0].equals(&draft.output) && bytes_eq(&tx.outputs_data[0], &draft.output_data)
}

/// The record of the cell that `tx` deploys as its first output. There is
/// none when `tx` has no first output with data, when the cell is to keep
/// its identity and the output has no type script, or when the capacity the
/// output occupies does not fit in 64 bits.
pub open spec fn cell_recipe_of(tx: TransactionRecordView, cell: CellView) -> Result<
    CellRecipeView,
    DeployErrorView,
> {
    if tx.outputs.len() == 0 || tx.outputs_data.len() == 0 {
        Err(DeployErrorView::CompletionMismatch)
    } else if cell.enable_type_id && tx.outputs[0].type_ is None {
        Err(DeployErrorView::CompletionMismatch)
    } else {
        let output = tx.outputs[0];
        let data = tx.outputs_data[0];
        let occupied = occupied_shannons(output.lock, output.type_, data.len());
        if occupied > u64::MAX {
            Err(DeployErrorView::CapacityOverflow)
        } else {
            Ok(
                CellRecipeView {
                    name: cell.name,
                    tx_hash: tx.hash,
                    index: 0,
                    occupied_capacity: occupied as u64,
                    data_hash: data_hash_of(data),
                    type_id: if cell.enable_type_id {
                        Some(script_hash_of(output.type_->0))
                    } else {
                        None
                    },
                },
            )
        }
    }
}

/// Records the cell that `tx` deploys.
pub fn build_cell_recipe(tx: &TransactionRecord, cell: &Cell) -> (r: Result<
    CellRecipe,
    DeployError,
>)
    ensures
        match r {
            Ok(recipe) => cell_recipe_of(tx@, cell@) == Ok::<CellRecipeView, DeployErrorView>(
                recipe@,
            ),
            Err(e) => cell_recipe_of(tx@, cell@) == Err::<CellRecipeView, DeployErrorView>(e@),
        },
{
    if tx.outputs.len() == 0 || tx.outputs_data.len() == 0 {
        return Err(DeployError::CompletionMismatch);
    }
    let output = &tx.outputs[0];
    let data = &tx.outputs_data[0];
    let type_id = if cell.enable_type_id {
        match &output.type_ {
            Some(script) => Some(script_hash(script)),
            None => {
                return Err(DeployError::CompletionMismatch);
            },
        }
    } else {
        None
    };
    let occupied = match occupied_capacity(&output.lock, &output.type_, data.len()) {
        Some(c) => c,
        None => {
            return Err(DeployError::CapacityOverflow);
        },
    };
    Ok(
        CellRecipe {
            name: cell.name.clone(),
            tx_hash: tx.hash,
            index: 0,
            occupied_capacity: occupied,
            data_hash: data_hash(data),
            type_id,
        },
    )
}

/// The record of the dependency group that `tx` deploys as its first
/// output.
pub open spec fn dep_group_recipe_of(tx: TransactionRecordView, dep_group: DepGroupView) -> Result<
    DepGroupRecipeView,
    DeployErrorView,
> {
    if tx.outputs.len() == 0 || tx.outputs_data.len() == 0 {
        Err(DeployErrorView::CompletionMismatch)
    } else {
        let output = tx.outputs[0];
        let occupied = occupied_shannons(output.lock, output.type_, tx.outputs_data[0].len());
        if occupied > u64::MAX {
            Err(DeployErrorView::CapacityOverflow)
        } else {
            Ok(
                DepGroupRecipeView {
                    name: dep_group.name,
                    tx_hash: tx.hash,
                    index: 0,
                    occupied_capacity: occupied as u64,
                },
            )
        }
    }
}

/// Records the dependency group that `tx` deploys.
pub fn build_dep_group_recipe(tx: &TransactionRecord, dep_group: &DepGroup) -> (r: Result<
    DepGroupRecipe,
    DeployError,
>)
    ensures
        match r {
            Ok(recipe) => dep_group_recipe_of(tx@, dep_group@) == Ok::<
                DepGroupRecipeView,
                DeployErrorView,
            >(recipe@),
            Err(e) => dep_group_recipe_of(tx@, dep_group@) == Err::<
                DepGroupRecipeView,
                DeployErrorView,
            >(e@),
        },
{
    if tx.outputs.len() == 0 || tx.outputs_data.len() == 0 {
        return Err(DeployError::CompletionMismatch);
    }
    let output = &tx.outputs[0];
    let occupied = match occupied_capacity(&output.lock, &output.type_, tx.outputs_data[0].len()) {
        Some(c) => c,
        None => {
            return Err(DeployError::CapacityOverflow);
        },
    };
    Ok(
        DepGroupRecipe {
            name: dep_group.name.clone(),
            tx_hash: tx.hash,
            index: 0,
            occupied_capacity: occupied,
        },
    )
}

} // verus!
