//! What holds of every run of the recipe builder, whatever the wallet
//! answers.

use crate::builder::{
    begin, collected, fail, first_is_change, group_points, initial, outcome, proceed, record,
    spent_by, step, submit,
    BuildActionView, BuildEventView, BuilderView, PreparedView, StageView,
};
use crate::change::{
    change_cell, changes_of, is_change, is_lowest_change, lemma_changes_exact,
    lemma_first_change_is_lowest, lemma_no_change,
};
use crate::config::{CellPayloadView, CellView, DepGroupView, PreInputView};
use crate::dep_group::{decode_out_points, lemma_out_points_round_trip, resolve_all, resolve_name};
use crate::error::DeployErrorView;
use crate::ledger::{data_hash_of, occupied_shannons, out_points_bytes, script_hash_of};
use crate::lookup::{first_index, lemma_first_index, pre_input_named};
use crate::recipe::DeploymentRecipeView;
use crate::transaction::{
    candidate_inputs, cell_recipe_of, cell_request, completes, dep_group_recipe_of,
    dep_group_request, inputs_of, out_points_of, pre_selected,
};
use crate::type_id::{inherited_type_id, is_type_id, selected_type_id, type_id_script};
use crate::types::{
    CellOutputView, LiveCellView, OutPointView, ScriptView, TransactionDraftView,
    TransactionRecordView,
};
use vstd::prelude::*;

verus! {

/// The first output of `tx` is the artifact described: guarded by `lock`,
/// carrying `data`, and locking exactly the capacity that it occupies.
pub open spec fn deploys(tx: TransactionRecordView, lock: ScriptView, data: Seq<u8>) -> bool {
    &&& 1 <= tx.outputs.len() <= u32::MAX
    &&& tx.outputs_data.len() == tx.outputs.len()
    &&& tx.outputs[0].lock == lock
    &&& tx.outputs_data[0] == data
    &&& tx.outputs[0].capacity == occupied_shannons(lock, tx.outputs[0].type_, data.len())
}

/// The `i`-th cell recipe records the `i`-th cell and the `i`-th
/// transaction: the transaction deploys the cell's data under the
/// deployer's lock, and the recipe has a type id exactly when the cell keeps its
/// identity, which is then the hash of the type-id script of the output.
pub open spec fn cell_recorded(s: BuilderView, i: int) -> bool {
    let r = s.cell_recipes[i];
    let tx = s.txs[i];
    let p = s.cells[i];
    &&& deploys(tx, s.lock, p.data)
    &&& r.name == p.cell.name
    &&& r.tx_hash == tx.hash
    &&& r.index == 0
    &&& r.occupied_capacity == tx.outputs[0].capacity
    &&& r.data_hash == data_hash_of(p.data)
    &&& (tx.outputs[0].type_ is Some) == p.cell.enable_type_id
    &&& p.cell.enable_type_id ==> is_type_id(tx.outputs[0].type_->0)
    &&& r.type_id == if p.cell.enable_type_id {
        Some(script_hash_of(tx.outputs[0].type_->0))
    } else {
        None
    }
}

/// The `j`-th group recipe records the `j`-th dependency group and its
/// transaction: the transaction deploys, under the deployer's lock and
/// without a type script, the bytes of the out-points that the names of
/// the group stand for.
pub open spec fn group_recorded(s: BuilderView, j: int) -> bool {
    let r = s.dep_group_recipes[j];
    let tx = s.txs[s.cells.len() + j];
    let g = s.dep_groups[j];
    let resolved = resolve_all(s.declared, s.cell_recipes, g);
    &&& resolved is Ok
    &&& deploys(tx, s.lock, out_points_bytes(resolved->Ok_0))
    &&& tx.outputs[0].type_ is None
    &&& r.name == g.name
    &&& r.tx_hash == tx.hash
    &&& r.index == 0
    &&& r.occupied_capacity == tx.outputs[0].capacity
}

/// The draft is the one that the artifact in progress asks for.
pub open spec fn draft_fits(s: BuilderView, draft: TransactionDraftView) -> bool {
    let output = draft.output;
    &&& draft.inputs == inputs_of(s.inputs)
    &&& output.lock == s.lock
    &&& output.capacity == occupied_shannons(output.lock, output.type_, draft.output_data.len())
    &&& if s.at_cell() {
        let p = s.cells[s.txs.len() as int];
        &&& draft.output_data == p.data
        &&& (output.type_ is Some) == p.cell.enable_type_id
        &&& p.cell.enable_type_id ==> is_type_id(output.type_->0)
    } else {
        let resolved = resolve_all(s.declared, s.cell_recipes, s.dep_groups[s.group_index()]);
        &&& s.at_group()
        &&& resolved is Ok
        &&& output.type_ is None
        &&& draft.output_data == out_points_bytes(resolved->Ok_0)
    }
}

/// Every input chosen for the artifact in progress is reserved.
pub open spec fn covered(s: BuilderView) -> bool {
    forall|i: int|
        0 <= i < s.inputs.len() ==> s.reserved.contains(#[trigger] s.inputs[i].out_point())
}

/// The inputs that the artifact in progress is offered.
pub open spec fn offered(s: BuilderView) -> Seq<LiveCellView> {
    candidate_inputs(s.pre_inputs, s.current_name(), s.change)
}

/// What the stage of a run says of its state.
pub open spec fn stage_fits(s: BuilderView) -> bool {
    match s.stage {
        StageView::Idle => s.txs.len() == 0,
        StageView::Reserving => {
            &&& covered(s)
            &&& s.at_cell() || (s.at_group() && group_points(s) is Ok)
            &&& s.inputs.len() > 0
            &&& offered(s).len() == 0 || s.inputs == offered(s)
        },
        StageView::Collecting => {
            &&& s.at_cell()
            &&& s.cells[s.txs.len() as int].cell.enable_type_id
            &&& s.inputs.len() == 0
            &&& offered(s).len() == 0
        },
        StageView::Querying => {
            &&& covered(s)
            &&& s.at_cell()
            &&& s.cells[s.txs.len() as int].cell.enable_type_id
            &&& s.inputs.len() > 0
        },
        StageView::Completing(draft) => covered(s) && draft_fits(s, draft),
        StageView::Finished => s.txs.len() == s.cells.len() + s.dep_groups.len(),
        StageView::Failed(_) => true,
    }
}

/// The change that a run offers to its next transaction: that of the last
/// transaction built, and none before the first.
pub open spec fn last_change(s: BuilderView) -> Seq<LiveCellView> {
    if s.txs.len() == 0 {
        Seq::empty()
    } else {
        changes_of(s.txs.last(), s.wallet_lock)
    }
}

/// A state that a run can be in: there is one transaction for each
/// artifact done, cells first; every recipe records its artifact and its
/// transaction; and the change kept is that of the last transaction.
pub open spec fn consistent(s: BuilderView) -> bool {
    &&& s.txs.len() <= s.cells.len() + s.dep_groups.len()
    &&& s.cell_recipes.len() == if s.at_cell() {
        s.txs.len()
    } else {
        s.cells.len()
    }
    &&& s.dep_group_recipes.len() == if s.at_cell() {
        0
    } else {
        s.txs.len() - s.cells.len()
    }
    &&& forall|i: int| 0 <= i < s.cell_recipes.len() ==> cell_recorded(s, i)
    &&& forall|j: int| 0 <= j < s.dep_group_recipes.len() ==> group_recorded(s, j)
    &&& s.change == last_change(s)
    &&& stage_fits(s)
}

/// States that differ only in stage and inputs hold the same records.
pub open spec fn same_records(a: BuilderView, b: BuilderView) -> bool {
    &&& a.lock == b.lock
    &&& a.wallet_lock == b.wallet_lock
    &&& a.tx_fee == b.tx_fee
    &&& a.declared == b.declared
    &&& a.cells == b.cells
    &&& a.dep_groups == b.dep_groups
    &&& a.pre_inputs == b.pre_inputs
    &&& a.txs == b.txs
    &&& a.cell_recipes == b.cell_recipes
    &&& a.dep_group_recipes == b.dep_group_recipes
    &&& a.change == b.change
}

/// The records of a run are consistent, whatever its stage and inputs.
pub open spec fn records_consistent(s: BuilderView) -> bool {
    consistent(BuilderView { stage: StageView::Failed(DeployErrorView::UnexpectedEvent), ..s })
}

proof fn lemma_records_carry(a: BuilderView, b: BuilderView)
    requires
        records_consistent(a),
        same_records(a, b),
        stage_fits(b),
    ensures
        consistent(b),
{
    let a0 = BuilderView { stage: StageView::Failed(DeployErrorView::UnexpectedEvent), ..a };
    assert forall|i: int| 0 <= i < b.cell_recipes.len() implies cell_recorded(b, i) by {
        assert(cell_recorded(a0, i));
    }
    assert forall|j: int| 0 <= j < b.dep_group_recipes.len() implies group_recorded(b, j) by {
        assert(group_recorded(a0, j));
    }
}

proof fn lemma_consistent_records(s: BuilderView)
    requires
        consistent(s),
    ensures
        records_consistent(s),
{
    let s0 = BuilderView { stage: StageView::Failed(DeployErrorView::UnexpectedEvent), ..s };
    assert forall|i: int| 0 <= i < s0.cell_recipes.len() implies cell_recorded(s0, i) by {
        assert(cell_recorded(s, i));
    }
    assert forall|j: int| 0 <= j < s0.dep_group_recipes.len() implies group_recorded(s0, j) by {
        assert(group_recorded(s, j));
    }
}

/// Out-points that were just reserved cover the inputs they were made of.
proof fn lemma_reserve_covers(reserved: Seq<OutPointView>, inputs: Seq<LiveCellView>)
    ensures
        forall|i: int|
            0 <= i < inputs.len() ==> (reserved + out_points_of(inputs)).contains(
                #[trigger] inputs[i].out_point(),
            ),
{
    let all = reserved + out_points_of(inputs);
    assert forall|i: int| 0 <= i < inputs.len() implies all.contains(
        #[trigger] inputs[i].out_point(),
    ) by {
        assert(all[reserved.len() + i] == out_points_of(inputs)[i]);
    }
}

proof fn lemma_fail_consistent(s: BuilderView, e: DeployErrorView)
    requires
        records_consistent(s),
    ensures
        consistent(fail(s, e).0),
{
    lemma_records_carry(s, fail(s, e).0);
}

proof fn lemma_submit_cell_consistent(s: BuilderView, type_script: Option<ScriptView>)
    requires
        records_consistent(s),
        covered(s),
        s.at_cell(),
        (type_script is Some) == s.cells[s.txs.len() as int].cell.enable_type_id,
        type_script is Some ==> is_type_id(type_script->0),
    ensures
        consistent(
            submit(
                s,
                cell_request(
                    s.lock,
                    s.cells[s.txs.len() as int].data,
                    s.inputs,
                    type_script,
                ),
            ).0,
        ),
{
    let p = s.cells[s.txs.len() as int];
    let r = cell_request(s.lock, p.data, s.inputs, type_script);
    match r {
        Err(e) => lemma_fail_consistent(s, e),
        Ok(request) => {
            lemma_records_carry(s, submit(s, r).0);
        },
    }
}

proof fn lemma_proceed_consistent(s: BuilderView)
    requires
        records_consistent(s),
        covered(s),
        s.at_cell() || s.at_group(),
        offered(s).len() == 0 || s.inputs == offered(s),
    ensures
        consistent(proceed(s).0),
{
    if s.at_cell() {
        let p = s.cells[s.txs.len() as int];
        if !p.cell.enable_type_id {
            lemma_submit_cell_consistent(s, None);
        } else if s.inputs.len() > 0 && first_is_change(s) {
            lemma_submit_cell_consistent(s, Some(type_id_script(s.inputs[0].input(), 0)));
        } else {
            lemma_records_carry(s, proceed(s).0);
        }
    } else {
        let g = s.dep_groups[s.group_index()];
        match resolve_all(s.declared, s.cell_recipes, g) {
            Err(e) => lemma_fail_consistent(s, e),
            Ok(points) => {
                let r = dep_group_request(s.lock, points, s.inputs);
                match r {
                    Err(e) => lemma_fail_consistent(s, e),
                    Ok(request) => lemma_records_carry(s, submit(s, r).0),
                }
            },
        }
    }
}

proof fn lemma_begin_consistent(s: BuilderView)
    requires
        records_consistent(s),
    ensures
        consistent(begin(s).0),
{
    if !s.at_cell() && !s.at_group() {
        lemma_records_carry(s, begin(s).0);
    } else if !s.at_cell() && group_points(s) is Err {
        lemma_fail_consistent(s, group_points(s)->Err_0);
    } else {
        let inputs = candidate_inputs(s.pre_inputs, s.current_name(), s.change);
        let chosen = BuilderView { inputs, ..s };
        lemma_records_carry(
            s,
            BuilderView { stage: StageView::Failed(DeployErrorView::UnexpectedEvent), ..chosen },
        );
        if inputs.len() > 0 {
            lemma_reserve_covers(s.reserved, inputs);
            lemma_records_carry(s, begin(s).0);
        } else {
            lemma_proceed_consistent(chosen);
        }
    }
}

proof fn lemma_record_consistent(
    s: BuilderView,
    draft: TransactionDraftView,
    tx: TransactionRecordView,
)
    requires
        consistent(s),
        s.stage == StageView::Completing(draft),
        completes(draft, tx),
    ensures
        consistent(record(s, tx).0),
        s.at_cell() ==> cell_recipe_of(tx, s.cells[s.txs.len() as int].cell) is Ok,
        !s.at_cell() ==> s.at_group() && dep_group_recipe_of(
            tx,
            s.dep_groups[s.group_index()],
        ) is Ok,
{
    lemma_consistent_records(s);
    if s.at_cell() {
        let p = s.cells[s.txs.len() as int];
        let r = cell_recipe_of(tx, p.cell);
        let recipe = r->Ok_0;
        let t = BuilderView {
            txs: s.txs.push(tx),
            cell_recipes: s.cell_recipes.push(recipe),
            change: changes_of(tx, s.wallet_lock),
            reserved: s.reserved + spent_by(tx),
            ..s
        };
        let t0 = BuilderView { stage: StageView::Failed(DeployErrorView::UnexpectedEvent), ..t };
        assert forall|i: int| 0 <= i < t0.cell_recipes.len() implies cell_recorded(t0, i) by {
            if i < s.cell_recipes.len() {
                assert(cell_recorded(s, i));
            }
        }
        lemma_begin_consistent(t);
    } else {
        let g = s.dep_groups[s.group_index()];
        let r = dep_group_recipe_of(tx, g);
        let recipe = r->Ok_0;
        let t = BuilderView {
            txs: s.txs.push(tx),
            dep_group_recipes: s.dep_group_recipes.push(recipe),
            change: changes_of(tx, s.wallet_lock),
            reserved: s.reserved + spent_by(tx),
            ..s
        };
        let t0 = BuilderView { stage: StageView::Failed(DeployErrorView::UnexpectedEvent), ..t };
        assert forall|i: int| 0 <= i < t0.cell_recipes.len() implies cell_recorded(t0, i) by {
            assert(cell_recorded(s, i));
        }
        assert forall|j: int| 0 <= j < t0.dep_group_recipes.len() implies group_recorded(t0, j) by {
            if j < s.dep_group_recipes.len() {
                assert(group_recorded(s, j));
            }
        }
        lemma_begin_consistent(t);
    }
}

/// A run begins in a consistent state.
pub proof fn lemma_initial_consistent(
    lock: ScriptView,
    declared: Seq<CellView>,
    cells: Seq<CellPayloadView>,
    dep_groups: Seq<DepGroupView>,
    pre_inputs: Seq<PreInputView>,
    wallet_lock: ScriptView,
    tx_fee: u64,
)
    ensures
        consistent(initial(lock, declared, cells, dep_groups, pre_inputs, wallet_lock, tx_fee)),
{
}

/// Every step of a run leads from a consistent state to a consistent
/// state, whatever the event.
pub proof fn lemma_step_consistent(s: BuilderView, e: BuildEventView)
    requires
        consistent(s),
    ensures
        consistent(step(s, e).0),
{
    lemma_consistent_records(s);
    match s.stage {
        StageView::Finished => {},
        StageView::Failed(err) => {},
        StageView::Idle => match e {
            BuildEventView::Start => lemma_begin_consistent(s),
            _ => lemma_fail_consistent(s, DeployErrorView::UnexpectedEvent),
        },
        StageView::Reserving => match e {
            BuildEventView::Reserved => lemma_proceed_consistent(s),
            BuildEventView::Failed => lemma_fail_consistent(s, DeployErrorView::WalletFailed),
            _ => lemma_fail_consistent(s, DeployErrorView::UnexpectedEvent),
        },
        StageView::Collecting => match e {
            BuildEventView::Collected(cells) => {
                if cells.len() == 0 {
                    lemma_fail_consistent(s, DeployErrorView::NoFundingInput);
                } else {
                    lemma_reserve_covers(s.reserved, cells);
                    lemma_records_carry(s, collected(s, cells).0);
                }
            },
            BuildEventView::Failed => lemma_fail_consistent(s, DeployErrorView::WalletFailed),
            _ => lemma_fail_consistent(s, DeployErrorView::UnexpectedEvent),
        },
        StageView::Querying => match e {
            BuildEventView::FundingOutput(existing) => match existing {
                None => lemma_fail_consistent(s, DeployErrorView::FundingOutputNotFound),
                Some(output) => {
                    let type_script = selected_type_id(output, s.inputs[0].input());
                    lemma_submit_cell_consistent(s, Some(type_script));
                },
            },
            BuildEventView::Failed => lemma_fail_consistent(s, DeployErrorView::WalletFailed),
            _ => lemma_fail_consistent(s, DeployErrorView::UnexpectedEvent),
        },
        StageView::Completing(draft) => match e {
            BuildEventView::Completed(tx) => {
                if completes(draft, tx) {
                    lemma_record_consistent(s, draft, tx);
                } else {
                    lemma_fail_consistent(s, DeployErrorView::CompletionMismatch);
                }
            },
            BuildEventView::Failed => lemma_fail_consistent(s, DeployErrorView::WalletFailed),
            _ => lemma_fail_consistent(s, DeployErrorView::UnexpectedEvent),
        },
    }
}

/// A state in which a run begins: nothing is built, reserved or asked.
pub open spec fn fresh(s: BuilderView) -> bool {
    s == initial(s.lock, s.declared, s.cells, s.dep_groups, s.pre_inputs, s.wallet_lock, s.tx_fee)
}

/// The state of a run that began in `s`, after the events given.
pub open spec fn run(s: BuilderView, events: Seq<BuildEventView>) -> BuilderView
    decreases events.len(),
{
    if events.len() == 0 {
        s
    } else {
        step(run(s, events.drop_last()), events.last()).0
    }
}

/// A state that some run reaches, whatever the wallet answered on the way.
pub open spec fn reached(s: BuilderView) -> bool {
    exists|first: BuilderView, events: Seq<BuildEventView>|
        fresh(first) && s == #[trigger] run(first, events)
}

/// Every state of a run that began in a consistent state is consistent.
pub proof fn lemma_run_consistent(s: BuilderView, events: Seq<BuildEventView>)
    requires
        consistent(s),
    ensures
        consistent(run(s, events)),
    decreases events.len(),
{
    if events.len() > 0 {
        lemma_run_consistent(s, events.drop_last());
        lemma_step_consistent(run(s, events.drop_last()), events.last());
    }
}

/// Every state that a run reaches is consistent.
pub proof fn lemma_reached_consistent(s: BuilderView)
    requires
        reached(s),
    ensures
        consistent(s),
{
    let (first, events) = choose|first: BuilderView, events: Seq<BuildEventView>|
        fresh(first) && s == #[trigger] run(first, events);
    lemma_run_consistent(first, events);
}

/// A step from a state that a run reaches leads to such a state.
pub proof fn lemma_step_reached(s: BuilderView, e: BuildEventView)
    requires
        reached(s),
    ensures
        reached(step(s, e).0),
{
    let (first, events) = choose|first: BuilderView, events: Seq<BuildEventView>|
        fresh(first) && s == #[trigger] run(first, events);
    let longer = events.push(e);
    assert(longer.drop_last() =~= events);
    assert(step(s, e).0 == run(first, longer));
}

/// A cell that does not keep its identity has no type id in its recipe,
/// and its output has no type script.
pub proof fn lemma_no_type_id_unless_enabled(s: BuilderView, i: int)
    requires
        reached(s),
        0 <= i < s.cell_recipes.len(),
        !s.cells[i].cell.enable_type_id,
    ensures
        s.cell_recipes[i].type_id is None,
        s.txs[i].outputs[0].type_ is None,
{
    lemma_reached_consistent(s);
    assert(cell_recorded(s, i));
}

/// A cell that keeps its identity has the hash of a type-id script as its
/// type id.
pub proof fn lemma_type_id_when_enabled(s: BuilderView, i: int)
    requires
        reached(s),
        0 <= i < s.cell_recipes.len(),
        s.cells[i].cell.enable_type_id,
    ensures
        s.txs[i].outputs[0].type_ is Some,
        is_type_id(s.txs[i].outputs[0].type_->0),
        s.cell_recipes[i].type_id == Some(script_hash_of(s.txs[i].outputs[0].type_->0)),
{
    lemma_reached_consistent(s);
    assert(cell_recorded(s, i));
}

/// Every transaction of a run has the artifact as its first output, at
/// index 0, with exactly the capacity that the artifact occupies.
pub proof fn lemma_principal_output(s: BuilderView, i: int)
    requires
        reached(s),
        0 <= i < s.cell_recipes.len(),
    ensures
        s.cell_recipes[i].index == 0,
        s.cell_recipes[i].tx_hash == s.txs[i].hash,
        s.txs[i].outputs_data[0] == s.cells[i].data,
        s.txs[i].outputs[0].lock == s.lock,
        s.cell_recipes[i].occupied_capacity == occupied_shannons(
            s.lock,
            s.txs[i].outputs[0].type_,
            s.cells[i].data.len(),
        ),
{
    lemma_reached_consistent(s);
    assert(cell_recorded(s, i));
}

/// A dependency group round-trips: the data of its output decodes to one
/// out-point for each name of the group, in the order of the names, and
/// each is the out-point that the name stands for: that of the cell's
/// recipe, or the one declared for a cell that is on the ledger already.
pub proof fn lemma_dep_group_round_trips(s: BuilderView, j: int)
    requires
        reached(s),
        0 <= j < s.dep_group_recipes.len(),
        s.dep_groups[j].cells.len() <= u32::MAX,
        forall|i: int|
            0 <= i < s.dep_groups[j].cells.len() ==> (#[trigger] resolve_name(
                s.declared,
                s.cell_recipes,
                s.dep_groups[j].cells[i],
            ))->0.tx_hash.len() == 32,
    ensures
        s.dep_group_recipes[j].tx_hash == s.txs[s.cells.len() + j].hash,
        s.dep_group_recipes[j].index == 0,
        decode_out_points(s.txs[s.cells.len() + j].outputs_data[0]) is Some,
        decode_out_points(s.txs[s.cells.len() + j].outputs_data[0])->0.len()
            == s.dep_groups[j].cells.len(),
        forall|i: int|
            0 <= i < s.dep_groups[j].cells.len() ==> Some(
                #[trigger] decode_out_points(s.txs[s.cells.len() + j].outputs_data[0])->0[i],
            ) == resolve_name(s.declared, s.cell_recipes, s.dep_groups[j].cells[i]),
{
    lemma_reached_consistent(s);
    assert(group_recorded(s, j));
    let g = s.dep_groups[j];
    let points = resolve_all(s.declared, s.cell_recipes, g)->Ok_0;
    lemma_first_index(g.cells, crate::dep_group::unresolved(s.declared, s.cell_recipes));
    lemma_out_points_round_trip(points);
}

/// What a transaction leaves as change is exactly what the next
/// transaction is offered, after the pre-selected input of its artifact if
/// it has one. The next artifact is offered its inputs unless it is a
/// dependency group one of whose names stands for nothing, which ends the
/// run before that.
pub proof fn lemma_change_is_offered(
    s: BuilderView,
    draft: TransactionDraftView,
    tx: TransactionRecordView,
)
    requires
        reached(s),
        s.stage == StageView::Completing(draft),
        completes(draft, tx),
    ensures
        ({
            let next = step(s, BuildEventView::Completed(tx)).0;
            &&& next.txs == s.txs.push(tx)
            &&& next.change == changes_of(tx, s.wallet_lock)
            &&& next.at_cell() || (next.at_group() && group_points(next) is Ok) ==> next.inputs
                == candidate_inputs(
                s.pre_inputs,
                next.current_name(),
                changes_of(tx, s.wallet_lock),
            )
            &&& (next.at_cell() || (next.at_group() && group_points(next) is Ok)) && first_index(
                s.pre_inputs,
                pre_input_named(next.current_name()),
            ) is None ==> next.inputs == changes_of(tx, s.wallet_lock)
            &&& (forall|i: int| 0 <= i < tx.paired() ==> !is_change(tx, i, s.wallet_lock))
                ==> next.change.len() == 0
        }),
{
    lemma_reached_consistent(s);
    if forall|i: int| 0 <= i < tx.paired() ==> !is_change(tx, i, s.wallet_lock) {
        lemma_no_change(tx, s.wallet_lock, tx.paired());
    }
    lemma_record_consistent(s, draft, tx);
    let next = step(s, BuildEventView::Completed(tx)).0;
    if first_index(s.pre_inputs, pre_input_named(next.current_name())) is None {
        assert(pre_selected(s.pre_inputs, next.current_name()) + changes_of(tx, s.wallet_lock)
            =~= changes_of(tx, s.wallet_lock));
    }
}

/// In every state of a run, the change on offer is that of the last
/// transaction built.
pub proof fn lemma_change_of_last(s: BuilderView)
    requires
        reached(s),
        s.txs.len() > 0,
    ensures
        s.change == changes_of(s.txs.last(), s.wallet_lock),
{
    lemma_reached_consistent(s);
}

/// The batch is ordered: the change on offer is made of outputs of the
/// last transaction built, so a transaction spends change of the one
/// before it and never of one after it.
pub proof fn lemma_change_comes_from_the_last(s: BuilderView, k: int)
    requires
        reached(s),
        0 <= k < s.change.len(),
    ensures
        s.txs.len() > 0,
        s.change[k].tx_hash == s.txs.last().hash,
        0 <= s.change[k].index < s.txs.last().outputs.len(),
        is_change(s.txs.last(), s.change[k].index as int, s.wallet_lock),
        s.change[k].capacity == s.txs.last().outputs[s.change[k].index as int].capacity,
{
    lemma_reached_consistent(s);
    let tx = s.txs.last();
    lemma_changes_exact(tx, s.wallet_lock, tx.paired());
    lemma_paired_fits(s);
    assert(changes_of(tx, s.wallet_lock).contains(s.change[k]));
}

/// Every output of every transaction of a run has its data, and an index
/// that fits in 32 bits.
pub proof fn lemma_paired_fits(s: BuilderView)
    requires
        reached(s),
    ensures
        forall|i: int|
            0 <= i < s.txs.len() ==> (#[trigger] s.txs[i]).outputs_data.len()
                == s.txs[i].outputs.len() && 1 <= s.txs[i].outputs.len() <= u32::MAX,
{
    lemma_reached_consistent(s);
    assert forall|i: int| 0 <= i < s.txs.len() implies (#[trigger] s.txs[i]).outputs_data.len()
        == s.txs[i].outputs.len() && 1 <= s.txs[i].outputs.len() <= u32::MAX by {
        if i < s.cell_recipes.len() {
            assert(cell_recorded(s, i));
        } else {
            assert(group_recorded(s, i - s.cells.len()));
        }
    }
}

/// Change seeds a fresh identity. A cell that keeps its identity, for which
/// no input was pre-selected, and which follows a transaction that left
/// change, is assembled without a question to the ledger, which does not
/// know that transaction yet. Its first input is the change of the lowest
/// index, and its type script is the one derived from that input for the
/// output at index 0. Only a capacity that does not fit in 64 bits stands
/// in the way.
pub proof fn lemma_change_seeds_a_fresh_type_id(s: BuilderView)
    requires
        reached(s),
        s.stage is Reserving,
        s.at_cell(),
        s.cells[s.txs.len() as int].cell.enable_type_id,
        first_is_change(s),
    ensures
        ({
            let (next, action) = step(s, BuildEventView::Reserved);
            let p = s.cells[s.txs.len() as int];
            let seed = s.change[0].input();
            let request = cell_request(s.lock, p.data, s.inputs, Some(type_id_script(seed, 0)));
            &&& s.txs.len() > 0
            &&& exists|j: int|
                j < s.txs.last().paired() && #[trigger] is_lowest_change(
                    s.txs.last(),
                    s.wallet_lock,
                    j,
                ) && s.change[0] == change_cell(s.txs.last(), j)
            &&& s.inputs == s.change
            &&& match request {
                Ok(r) => {
                    &&& action == (BuildActionView::Complete { request: r, tx_fee: s.tx_fee })
                    &&& r.draft.inputs[0] == seed
                    &&& r.draft.output.type_ == Some(type_id_script(seed, 0))
                },
                Err(e) => {
                    &&& e == DeployErrorView::CapacityOverflow
                    &&& action == BuildActionView::Failed(e)
                },
            }
        }),
{
    lemma_reached_consistent(s);
    let tx = s.txs.last();
    lemma_first_change_is_lowest(tx, s.wallet_lock, tx.paired());
    assert(pre_selected(s.pre_inputs, s.current_name()) + s.change =~= s.change);
}

/// Redeploying keeps the identity: when the output that the first input
/// spends carries a type-id script, the draft carries that script, and a
/// transaction that completes the draft is recorded with the hash of that
/// script as its type id.
pub proof fn lemma_redeploy_keeps_type_id(
    s: BuilderView,
    existing: CellOutputView,
    tx: TransactionRecordView,
)
    requires
        reached(s),
        s.stage is Querying,
        existing.type_ is Some,
        is_type_id(existing.type_->0),
        step(s, BuildEventView::FundingOutput(Some(existing))).0.stage is Completing,
        completes(
            step(s, BuildEventView::FundingOutput(Some(existing))).0.stage->Completing_0,
            tx,
        ),
    ensures
        ({
            let asked = step(s, BuildEventView::FundingOutput(Some(existing))).0;
            let done = step(asked, BuildEventView::Completed(tx)).0;
            &&& asked.stage->Completing_0.output.type_ == existing.type_
            &&& done.cell_recipes.len() == s.cell_recipes.len() + 1
            &&& done.cell_recipes.last().type_id == Some(script_hash_of(existing.type_->0))
        }),
{
    lemma_reached_consistent(s);
    let asked = step(s, BuildEventView::FundingOutput(Some(existing))).0;
    lemma_step_consistent(s, BuildEventView::FundingOutput(Some(existing)));
    let draft = asked.stage->Completing_0;
    lemma_record_consistent(asked, draft, tx);
    lemma_recorded_keeps_records(asked, tx);
}

/// A fresh identity comes from the first input: when the output that the
/// first input spends carries no type-id script, the draft carries the
/// script derived from the first input of the draft for the output at
/// index 0.
pub proof fn lemma_fresh_type_id_from_first_input(s: BuilderView, existing: CellOutputView)
    requires
        reached(s),
        s.stage is Querying,
        inherited_type_id(existing) is None,
        step(s, BuildEventView::FundingOutput(Some(existing))).0.stage is Completing,
    ensures
        ({
            let asked = step(s, BuildEventView::FundingOutput(Some(existing))).0;
            let draft = asked.stage->Completing_0;
            &&& draft.inputs.len() > 0
            &&& draft.output.type_ == Some(type_id_script(draft.inputs[0], 0))
        }),
{
    lemma_reached_consistent(s);
}

/// Two builds agree on a fresh identity: when two runs ask about the
/// output that their first input spends, those first inputs are the same,
/// and neither output carries a type-id script, both drafts carry the same
/// type script, with the same hash.
pub proof fn lemma_two_builds_derive_the_same(
    a: BuilderView,
    b: BuilderView,
    existing_a: CellOutputView,
    existing_b: CellOutputView,
)
    requires
        reached(a),
        reached(b),
        a.stage is Querying,
        b.stage is Querying,
        a.inputs[0] == b.inputs[0],
        inherited_type_id(existing_a) is None,
        inherited_type_id(existing_b) is None,
        step(a, BuildEventView::FundingOutput(Some(existing_a))).0.stage is Completing,
        step(b, BuildEventView::FundingOutput(Some(existing_b))).0.stage is Completing,
    ensures
        ({
            let draft_a = step(
                a,
                BuildEventView::FundingOutput(Some(existing_a)),
            ).0.stage->Completing_0;
            let draft_b = step(
                b,
                BuildEventView::FundingOutput(Some(existing_b)),
            ).0.stage->Completing_0;
            &&& draft_a.output.type_ is Some
            &&& draft_a.output.type_ == draft_b.output.type_
            &&& script_hash_of(draft_a.output.type_->0) == script_hash_of(draft_b.output.type_->0)
        }),
{
    lemma_fresh_type_id_from_first_input(a, existing_a);
    lemma_fresh_type_id_from_first_input(b, existing_b);
    lemma_reached_consistent(a);
    lemma_reached_consistent(b);
}

/// Recording a cell adds its recipe at the end of the cell recipes, even
/// when the artifact after it then fails.
proof fn lemma_recorded_keeps_records(s: BuilderView, tx: TransactionRecordView)
    requires
        s.at_cell(),
        cell_recipe_of(tx, s.cells[s.txs.len() as int].cell) is Ok,
    ensures
        record(s, tx).0.cell_recipes == s.cell_recipes.push(
            cell_recipe_of(tx, s.cells[s.txs.len() as int].cell)->Ok_0,
        ),
{
    let recipe = cell_recipe_of(tx, s.cells[s.txs.len() as int].cell)->Ok_0;
    let t = BuilderView {
        txs: s.txs.push(tx),
        cell_recipes: s.cell_recipes.push(recipe),
        change: changes_of(tx, s.wallet_lock),
        reserved: s.reserved + spent_by(tx),
        ..s
    };
    lemma_begin_keeps_records(t);
}

/// Beginning an artifact changes no record.
proof fn lemma_begin_keeps_records(s: BuilderView)
    ensures
        same_records(s, begin(s).0),
{
    if s.at_cell() || s.at_group() {
        let inputs = candidate_inputs(s.pre_inputs, s.current_name(), s.change);
        if inputs.len() == 0 {
            lemma_proceed_keeps_records(BuilderView { inputs, ..s });
        }
    }
}

proof fn lemma_proceed_keeps_records(s: BuilderView)
    ensures
        same_records(s, proceed(s).0),
{
}

/// No draft spends what is not reserved: every input of the draft that is
/// handed to the wallet spends an out-point that the wallet was told to
/// reserve before.
pub proof fn lemma_draft_spends_reserved(s: BuilderView, k: int)
    requires
        reached(s),
        s.stage is Completing,
        0 <= k < s.stage->Completing_0.inputs.len(),
    ensures
        s.reserved.contains(s.stage->Completing_0.inputs[k].previous_output),
{
    lemma_reached_consistent(s);
}

/// One lock for everything: the deployer's lock guards the first output of
/// every transaction of the run, be it a cell or a dependency group. The
/// wallet's lock guards the change only.
pub proof fn lemma_deployer_lock_guards_all(s: BuilderView, i: int)
    requires
        reached(s),
        0 <= i < s.txs.len(),
    ensures
        s.txs[i].outputs[0].lock == s.lock,
{
    lemma_reached_consistent(s);
    if i < s.cell_recipes.len() {
        assert(cell_recorded(s, i));
    } else {
        assert(group_recorded(s, i - s.cells.len()));
    }
}

/// A dependency group one of whose names stands for nothing ends the run
/// before anything is asked of the wallet for it. A group begins with the
/// start of the run or with the transaction of the artifact before it; the
/// step that would begin the group answers with the error, which names the
/// first such name and the group, and not with a request.
pub proof fn lemma_unresolved_group_fails_before_any_call(s: BuilderView, e: BuildEventView)
    requires
        reached(s),
        s.stage is Idle && e is Start || s.stage is Completing && e is Completed && completes(
            s.stage->Completing_0,
            e->Completed_0,
        ),
        !step(s, e).0.at_cell(),
        step(s, e).0.at_group(),
        group_points(step(s, e).0) is Err,
    ensures
        ({
            let (next, action) = step(s, e);
            &&& action == BuildActionView::Failed(group_points(next)->Err_0)
            &&& group_points(next)->Err_0 is CellNotFound
            &&& next.stage == StageView::Failed(group_points(next)->Err_0)
        }),
{
    lemma_reached_consistent(s);
    let next = step(s, e).0;
    lemma_first_index(
        next.dep_groups[next.group_index()].cells,
        crate::dep_group::unresolved(next.declared, next.cell_recipes),
    );
    match s.stage {
        StageView::Completing(draft) => {
            let tx = e->Completed_0;
            if completes(draft, tx) {
                lemma_record_consistent(s, draft, tx);
            }
        },
        _ => {},
    }
}

/// Once the inputs of a dependency group are reserved, its names are known
/// to stand for out-points: the group is assembled, and only a capacity
/// that does not fit in 64 bits stands in the way.
pub proof fn lemma_reserved_group_is_assembled(s: BuilderView)
    requires
        reached(s),
        s.stage is Reserving,
        !s.at_cell(),
    ensures
        ({
            let action = step(s, BuildEventView::Reserved).1;
            let request = dep_group_request(s.lock, group_points(s)->Ok_0, s.inputs);
            &&& s.at_group()
            &&& group_points(s) is Ok
            &&& match request {
                Ok(r) => action == (BuildActionView::Complete { request: r, tx_fee: s.tx_fee }),
                Err(err) => err == DeployErrorView::CapacityOverflow && action
                    == BuildActionView::Failed(err),
            }
        }),
{
    lemma_reached_consistent(s);
}

/// A failure of the wallet ends the run at once: whatever was asked, the
/// answer `Failed` leaves the records as they are, and from then on the
/// run asks nothing more, whatever it is told.
pub proof fn lemma_wallet_failure_ends_the_run(s: BuilderView, later: BuildEventView)
    requires
        s.stage is Reserving || s.stage is Collecting || s.stage is Querying
            || s.stage is Completing,
    ensures
        ({
            let (failed, action) = step(s, BuildEventView::Failed);
            &&& action == BuildActionView::Failed(DeployErrorView::WalletFailed)
            &&& failed == (BuilderView {
                stage: StageView::Failed(DeployErrorView::WalletFailed),
                ..s
            })
            &&& outcome(failed) is None
            &&& step(failed, later) == (
                failed,
                BuildActionView::Failed(DeployErrorView::WalletFailed),
            )
        }),
{
}

/// With nothing to deploy the run is finished at once: the manifest has
/// two empty lists, there is no transaction, and nothing is asked of the
/// wallet.
pub proof fn lemma_empty_batch(
    lock: ScriptView,
    declared: Seq<CellView>,
    pre_inputs: Seq<PreInputView>,
    wallet_lock: ScriptView,
    tx_fee: u64,
)
    ensures
        ({
            let first = initial(
                lock,
                declared,
                Seq::empty(),
                Seq::empty(),
                pre_inputs,
                wallet_lock,
                tx_fee,
            );
            let (last, action) = step(first, BuildEventView::Start);
            &&& action == BuildActionView::Finished
            &&& outcome(last) == Some(
                PreparedView {
                    recipe: DeploymentRecipeView {
                        cell_recipes: Seq::empty(),
                        dep_group_recipes: Seq::empty(),
                    },
                    txs: Seq::empty(),
                },
            )
        }),
{
}

/// A finished run has one transaction and one recipe for every artifact:
/// the cells first, then the dependency groups, each in the order of its
/// declaration.
pub proof fn lemma_finished_is_complete(s: BuilderView)
    requires
        reached(s),
        s.stage is Finished,
    ensures
        outcome(s) is Some,
        s.txs.len() == s.cells.len() + s.dep_groups.len(),
        s.cell_recipes.len() == s.cells.len(),
        s.dep_group_recipes.len() == s.dep_groups.len(),
        forall|i: int| 0 <= i < s.cells.len() ==> cell_recorded(s, i),
        forall|j: int| 0 <= j < s.dep_groups.len() ==> group_recorded(s, j),
{
    lemma_reached_consistent(s);
}

/// Until a run is finished it hands over no manifest: a failure leaves
/// none behind.
pub proof fn lemma_no_manifest_before_the_end(s: BuilderView)
    requires
        !(s.stage is Finished),
    ensures
        outcome(s) is None,
{
}

} // verus!
