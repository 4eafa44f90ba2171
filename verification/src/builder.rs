//! The recipe builder: it walks the cells and then the dependency groups
//! of a deployment in the order of their declaration, and builds one
//! transaction for each. The wallet does what only it can do; the builder
//! asks for it with a `BuildAction` and takes the answer as a `BuildEvent`.

use crate::change::{changes_of, search_changes};
use crate::config::{
    Cell, CellPayload, CellPayloadView, CellView, DepGroup, DepGroupView, PreInput, PreInputView,
};
use crate::dep_group::{resolve_all, resolve_name, resolve_out_points};
use crate::error::{DeployError, DeployErrorView};
use crate::invariants::{fresh, lemma_step_reached, reached};
use crate::lookup::{
    cell_named, find_pre_input, first_index, lemma_first_index, pre_input_named, recipe_named,
};
use crate::recipe::{
    CellRecipe, CellRecipeView, DepGroupRecipe, DepGroupRecipeView, DeploymentRecipe,
    DeploymentRecipeView,
};
use crate::transaction::{
    build_cell_recipe, build_cell_tx, build_dep_group_recipe, build_dep_group_tx,
    candidate_inputs, cell_recipe_of, cell_request, check_completion, completes,
    dep_group_recipe_of, dep_group_request, gather_inputs, make_out_points, out_points_of,
    request_result_view, FundingRequest, FundingRequestView,
};
use crate::type_id::{build_type_id_script, select_type_id, selected_type_id, type_id_script};
use crate::types::{
    lemma_views_add, lemma_views_push, views, CellOutput, CellOutputView, LiveCell, LiveCellView,
    OutPoint, OutPointView, Script, ScriptView, TransactionDraft, TransactionDraftView,
    TransactionRecord, TransactionRecordView,
};
use vstd::prelude::*;

verus! {

/// The least capacity asked of the wallet when a cell that keeps its
/// identity has no input yet: any live cell will do.
pub const SEED_CAPACITY: u64 = 1;

/// What the wallet answers.
#[derive(Clone, Debug, PartialEq, Eq)]
pub enum BuildEvent {
    /// Nothing yet: the run begins.
    Start,
    /// The out-points asked for are reserved.
    Reserved,
    /// The live cells that the wallet collected.
    Collected(Vec<LiveCell>),
    /// The output that the out-point asked about names, if the ledger
    /// knows it.
    FundingOutput(Option<CellOutput>),
    /// The transaction that the wallet made of the draft.
    Completed(TransactionRecord),
    /// The wallet could not do what was asked.
    Failed,
}

pub ghost enum BuildEventView {
    Start,
    Reserved,
    Collected(Seq<LiveCellView>),
    FundingOutput(Option<CellOutputView>),
    Completed(TransactionRecordView),
    Failed,
}

/// The view of an optional output.
pub open spec fn output_opt_view(o: Option<CellOutput>) -> Option<CellOutputView> {
    match o {
        Some(output) => Some(output@),
        None => None,
    }
}

impl View for BuildEvent {
    type V = BuildEventView;

    open spec fn view(&self) -> BuildEventView {
        match *self {
            BuildEvent::Start => BuildEventView::Start,
            BuildEvent::Reserved => BuildEventView::Reserved,
            BuildEvent::Collected(cells) => BuildEventView::Collected(views(cells@)),
            BuildEvent::FundingOutput(o) => BuildEventView::FundingOutput(output_opt_view(o)),
            BuildEvent::Completed(tx) => BuildEventView::Completed(tx@),
            BuildEvent::Failed => BuildEventView::Failed,
        }
    }
}

/// What the builder asks of the wallet, or how the run ended. Where the
/// wallet cannot do what is asked, the answer is `Failed`.
#[derive(Clone, Debug, PartialEq, Eq)]
pub enum BuildAction {
    /// Reserve these out-points, so that nothing else in the run selects
    /// them. Answer with `Reserved`.
    Reserve(Vec<OutPoint>),
    /// Collect live cells worth at least this capacity. Answer with
    /// `Collected`.
    Collect { min_capacity: u64 },
    /// Look up the output that this out-point names. Asked only of an
    /// input that was pre-selected or collected, never of change of this
    /// batch. Answer with `FundingOutput`.
    QueryFunding(OutPoint),
    /// Add to the draft what the wallet's lock needs, the inputs that are
    /// still missing for capacity and fee, and the change; reserve all
    /// inputs. Answer with `Completed`.
    Complete { request: FundingRequest, tx_fee: u64 },
    /// Every artifact is built.
    Finished,
    /// The run is over, without a manifest.
    Failed(DeployError),
}

pub ghost enum BuildActionView {
    Reserve(Seq<OutPointView>),
    Collect { min_capacity: u64 },
    QueryFunding(OutPointView),
    Complete { request: FundingRequestView, tx_fee: u64 },
    Finished,
    Failed(DeployErrorView),
}

impl View for BuildAction {
    type V = BuildActionView;

    open spec fn view(&self) -> BuildActionView {
        match *self {
            BuildAction::Reserve(points) => BuildActionView::Reserve(views(points@)),
            BuildAction::Collect { min_capacity } => BuildActionView::Collect { min_capacity },
            BuildAction::QueryFunding(point) => BuildActionView::QueryFunding(point@),
            BuildAction::Complete { request, tx_fee } => BuildActionView::Complete {
                request: request@,
                tx_fee,
            },
            BuildAction::Finished => BuildActionView::Finished,
            BuildAction::Failed(e) => BuildActionView::Failed(e@),
        }
    }
}

/// Where the builder stands with the artifact in progress.
#[derive(Clone, Debug, PartialEq, Eq)]
pub enum Stage {
    Idle,
    Reserving,
    Collecting,
    Querying,
    Completing(TransactionDraft),
    Finished,
    Failed(DeployError),
}

pub ghost enum StageView {
    Idle,
    Reserving,
    Collecting,
    Querying,
    Completing(TransactionDraftView),
    Finished,
    Failed(DeployErrorView),
}

impl View for Stage {
    type V = StageView;

    open spec fn view(&self) -> StageView {
        match *self {
            Stage::Idle => StageView::Idle,
            Stage::Reserving => StageView::Reserving,
            Stage::Collecting => StageView::Collecting,
            Stage::Querying => StageView::Querying,
            Stage::Completing(draft) => StageView::Completing(draft@),
            Stage::Finished => StageView::Finished,
            Stage::Failed(e) => StageView::Failed(e@),
        }
    }
}

/// The state of a run, as the contracts see it.
pub ghost struct BuilderView {
    /// The deployer's lock: it guards every cell and every dependency
    /// group that the run deploys.
    pub lock: ScriptView,
    /// The wallet's own lock: what it guards is the deployer's to spend.
    pub wallet_lock: ScriptView,
    pub tx_fee: u64,
    /// Every cell that the deployment declares.
    pub declared: Seq<CellView>,
    /// The cells to deploy, with their data.
    pub cells: Seq<CellPayloadView>,
    pub dep_groups: Seq<DepGroupView>,
    pub pre_inputs: Seq<PreInputView>,
    /// The transactions built so far: one for each artifact done.
    pub txs: Seq<TransactionRecordView>,
    pub cell_recipes: Seq<CellRecipeView>,
    pub dep_group_recipes: Seq<DepGroupRecipeView>,
    /// The change of the last transaction built.
    pub change: Seq<LiveCellView>,
    /// The inputs chosen for the artifact in progress.
    pub inputs: Seq<LiveCellView>,
    /// Every out-point that the wallet was told to reserve, in order.
    pub reserved: Seq<OutPointView>,
    pub stage: StageView,
}

impl BuilderView {
    /// The artifact in progress is a cell.
    pub open spec fn at_cell(self) -> bool {
        self.txs.len() < self.cells.len()
    }

    /// The position of the artifact in progress among the dependency
    /// groups, once the cells are done.
    pub open spec fn group_index(self) -> int {
        self.txs.len() - self.cells.len()
    }

    /// The artifact in progress is a dependency group.
    pub open spec fn at_group(self) -> bool {
        0 <= self.group_index() < self.dep_groups.len()
    }

    /// The name of the artifact in progress.
    pub open spec fn current_name(self) -> Seq<char> {
        if self.at_cell() {
            self.cells[self.txs.len() as int].cell.name
        } else {
            self.dep_groups[self.group_index()].name
        }
    }
}

/// What the names of the dependency group in progress stand for.
pub open spec fn group_points(s: BuilderView) -> Result<Seq<OutPointView>, DeployErrorView> {
    resolve_all(s.declared, s.cell_recipes, s.dep_groups[s.group_index()])
}

/// The state in which a run begins.
pub open spec fn initial(
    lock: ScriptView,
    declared: Seq<CellView>,
    cells: Seq<CellPayloadView>,
    dep_groups: Seq<DepGroupView>,
    pre_inputs: Seq<PreInputView>,
    wallet_lock: ScriptView,
    tx_fee: u64,
) -> BuilderView {
    BuilderView {
        lock,
        wallet_lock,
        tx_fee,
        declared,
        cells,
        dep_groups,
        pre_inputs,
        txs: Seq::empty(),
        cell_recipes: Seq::empty(),
        dep_group_recipes: Seq::empty(),
        change: Seq::empty(),
        inputs: Seq::empty(),
        reserved: Seq::empty(),
        stage: StageView::Idle,
    }
}

/// The out-points that a transaction spends, in the order of its inputs.
pub open spec fn spent_by(tx: TransactionRecordView) -> Seq<OutPointView> {
    Seq::new(tx.inputs.len(), |i: int| tx.inputs[i].previous_output)
}

/// The run fails: the error is kept, and nothing else changes.
pub open spec fn fail(s: BuilderView, e: DeployErrorView) -> (BuilderView, BuildActionView) {
    (BuilderView { stage: StageView::Failed(e), ..s }, BuildActionView::Failed(e))
}

/// A request is handed to the wallet, or the failure to make one ends the
/// run.
pub open spec fn submit(s: BuilderView, r: Result<FundingRequestView, DeployErrorView>) -> (
    BuilderView,
    BuildActionView,
) {
    match r {
        Err(e) => fail(s, e),
        Ok(request) => (
            BuilderView { stage: StageView::Completing(request.draft), ..s },
            BuildActionView::Complete { request, tx_fee: s.tx_fee },
        ),
    }
}

/// The first input offered to the artifact in progress is change of the
/// transaction built just before: no input was pre-selected for the
/// artifact, and that transaction left change.
pub open spec fn first_is_change(s: BuilderView) -> bool {
    first_index(s.pre_inputs, pre_input_named(s.current_name())) is None && s.change.len() > 0
}

/// The inputs offered are reserved, or there are none. A cell that keeps
/// its identity needs a first input. With none, the wallet is asked to
/// collect. With change of the transaction built just before, the cell is
/// assembled at once, with a fresh type-id script derived from that input:
/// change carries no type script, and the ledger does not know the
/// transaction yet. With any other first input, the output it spends is
/// looked up. A cell that does not keep its identity is assembled at once.
/// A dependency group is resolved and assembled.
pub open spec fn proceed(s: BuilderView) -> (BuilderView, BuildActionView) {
    if s.at_cell() {
        let payload = s.cells[s.txs.len() as int];
        if payload.cell.enable_type_id {
            if s.inputs.len() == 0 {
                (
                    BuilderView { stage: StageView::Collecting, ..s },
                    BuildActionView::Collect { min_capacity: SEED_CAPACITY },
                )
            } else if first_is_change(s) {
                submit(
                    s,
                    cell_request(
                        s.lock,
                        payload.data,
                        s.inputs,
                        Some(type_id_script(s.inputs[0].input(), 0)),
                    ),
                )
            } else {
                (
                    BuilderView { stage: StageView::Querying, ..s },
                    BuildActionView::QueryFunding(s.inputs[0].out_point()),
                )
            }
        } else {
            submit(s, cell_request(s.lock, payload.data, s.inputs, None))
        }
    } else if s.at_group() {
        match group_points(s) {
            Err(e) => fail(s, e),
            Ok(points) => submit(s, dep_group_request(s.lock, points, s.inputs)),
        }
    } else {
        fail(s, DeployErrorView::UnexpectedEvent)
    }
}

/// The next artifact begins, or the run is finished. The inputs offered to
/// the artifact are its pre-selected input and the change of the
/// transaction built just before; if there are any, they are reserved
/// first. A dependency group one of whose names stands for nothing ends
/// the run before anything is asked of the wallet.
pub open spec fn begin(s: BuilderView) -> (BuilderView, BuildActionView) {
    if !s.at_cell() && !s.at_group() {
        (BuilderView { stage: StageView::Finished, ..s }, BuildActionView::Finished)
    } else if !s.at_cell() && group_points(s) is Err {
        fail(s, group_points(s)->Err_0)
    } else {
        let inputs = candidate_inputs(s.pre_inputs, s.current_name(), s.change);
        let chosen = BuilderView { inputs, ..s };
        if inputs.len() > 0 {
            (
                BuilderView {
                    stage: StageView::Reserving,
                    reserved: s.reserved + out_points_of(inputs),
                    ..chosen
                },
                BuildActionView::Reserve(out_points_of(inputs)),
            )
        } else {
            proceed(chosen)
        }
    }
}

/// The wallet's transaction is recorded: it joins the batch, its artifact
/// joins the manifest, its change is what the next artifact is offered,
/// what it spends is reserved, and the next artifact begins.
pub open spec fn record(s: BuilderView, tx: TransactionRecordView) -> (
    BuilderView,
    BuildActionView,
) {
    if s.at_cell() {
        match cell_recipe_of(tx, s.cells[s.txs.len() as int].cell) {
            Err(e) => fail(s, e),
            Ok(recipe) => begin(
                BuilderView {
                    txs: s.txs.push(tx),
                    cell_recipes: s.cell_recipes.push(recipe),
                    change: changes_of(tx, s.wallet_lock),
                    reserved: s.reserved + spent_by(tx),
                    ..s
                },
            ),
        }
    } else if s.at_group() {
        match dep_group_recipe_of(tx, s.dep_groups[s.group_index()]) {
            Err(e) => fail(s, e),
            Ok(recipe) => begin(
                BuilderView {
                    txs: s.txs.push(tx),
                    dep_group_recipes: s.dep_group_recipes.push(recipe),
                    change: changes_of(tx, s.wallet_lock),
                    reserved: s.reserved + spent_by(tx),
                    ..s
                },
            ),
        }
    } else {
        fail(s, DeployErrorView::UnexpectedEvent)
    }
}

/// The output that the first input spends is known: the cell takes over
/// its type-id script, or gets a fresh one derived from the first input.
pub open spec fn funded(s: BuilderView, existing: Option<CellOutputView>) -> (
    BuilderView,
    BuildActionView,
) {
    match existing {
        None => fail(s, DeployErrorView::FundingOutputNotFound),
        Some(output) => if s.at_cell() && s.inputs.len() > 0 {
            let payload = s.cells[s.txs.len() as int];
            let type_script = selected_type_id(output, s.inputs[0].input());
            submit(s, cell_request(s.lock, payload.data, s.inputs, Some(type_script)))
        } else {
            fail(s, DeployErrorView::UnexpectedEvent)
        },
    }
}

/// The wallet collected live cells for a cell that had no input: they
/// become its inputs and are reserved. With none collected the run fails.
pub open spec fn collected(s: BuilderView, cells: Seq<LiveCellView>) -> (
    BuilderView,
    BuildActionView,
) {
    if cells.len() == 0 {
        fail(s, DeployErrorView::NoFundingInput)
    } else {
        (
            BuilderView {
                inputs: cells,
                reserved: s.reserved + out_points_of(cells),
                stage: StageView::Reserving,
                ..s
            },
            BuildActionView::Reserve(out_points_of(cells)),
        )
    }
}

/// The wallet handed back a transaction: it is recorded if it completes
/// the draft, and ends the run if it does not.
pub open spec fn completed(
    s: BuilderView,
    draft: TransactionDraftView,
    tx: TransactionRecordView,
) -> (BuilderView, BuildActionView) {
    if completes(draft, tx) {
        record(s, tx)
    } else {
        fail(s, DeployErrorView::CompletionMismatch)
    }
}

/// One step of the run: the state after the event, and what is asked
/// next. A failure of the wallet ends the run at once, and so does an
/// event that the pending request did not ask for. A run that is finished
/// or has failed stays as it is and asks nothing more.
pub open spec fn step(s: BuilderView, e: BuildEventView) -> (BuilderView, BuildActionView) {
    match s.stage {
        StageView::Finished => (s, BuildActionView::Finished),
        StageView::Failed(err) => (s, BuildActionView::Failed(err)),
        StageView::Idle => match e {
            BuildEventView::Start => begin(s),
            _ => fail(s, DeployErrorView::UnexpectedEvent),
        },
        StageView::Reserving => match e {
            BuildEventView::Reserved => proceed(s),
            BuildEventView::Failed => fail(s, DeployErrorView::WalletFailed),
            _ => fail(s, DeployErrorView::UnexpectedEvent),
        },
        StageView::Collecting => match e {
            BuildEventView::Collected(cells) => collected(s, cells),
            BuildEventView::Failed => fail(s, DeployErrorView::WalletFailed),
            _ => fail(s, DeployErrorView::UnexpectedEvent),
        },
        StageView::Querying => match e {
            BuildEventView::FundingOutput(existing) => funded(s, existing),
            BuildEventView::Failed => fail(s, DeployErrorView::WalletFailed),
            _ => fail(s, DeployErrorView::UnexpectedEvent),
        },
        StageView::Completing(draft) => match e {
            BuildEventView::Completed(tx) => completed(s, draft, tx),
            BuildEventView::Failed => fail(s, DeployErrorView::WalletFailed),
            _ => fail(s, DeployErrorView::UnexpectedEvent),
        },
    }
}

/// What a finished run hands to signing: the manifest and the
/// transactions, in the order in which they were built.
#[derive(Clone, Debug, PartialEq, Eq)]
pub struct Prepared {
    pub recipe: DeploymentRecipe,
    pub txs: Vec<TransactionRecord>,
}

pub ghost struct PreparedView {
    pub recipe: DeploymentRecipeView,
    pub txs: Seq<TransactionRecordView>,
}

impl View for Prepared {
    type V = PreparedView;

    open spec fn view(&self) -> PreparedView {
        PreparedView { recipe: self.recipe@, txs: views(self.txs@) }
    }
}

/// What a run in state `s` has to hand over: nothing until it is
/// finished.
pub open spec fn outcome(s: BuilderView) -> Option<PreparedView> {
    if s.stage is Finished {
        Some(
            PreparedView {
                recipe: DeploymentRecipeView {
                    cell_recipes: s.cell_recipes,
                    dep_group_recipes: s.dep_group_recipes,
                },
                txs: s.txs,
            },
        )
    } else {
        None
    }
}

/// The view of what a run hands over.
pub open spec fn prepared_opt_view(p: Option<Prepared>) -> Option<PreparedView> {
    match p {
        Some(prepared) => Some(prepared@),
        None => None,
    }
}

/// A run of the recipe builder.
pub struct RecipeBuilder {
    lock: Script,
    wallet_lock: Script,
    tx_fee: u64,
    declared: Vec<Cell>,
    cells: Vec<CellPayload>,
    dep_groups: Vec<DepGroup>,
    pre_inputs: Vec<PreInput>,
    txs: Vec<TransactionRecord>,
    cell_recipes: Vec<CellRecipe>,
    dep_group_recipes: Vec<DepGroupRecipe>,
    change: Vec<LiveCell>,
    inputs: Vec<LiveCell>,
    reserved: Vec<OutPoint>,
    stage: Stage,
}

impl View for RecipeBuilder {
    type V = BuilderView;

    closed spec fn view(&self) -> BuilderView {
        BuilderView {
            lock: self.lock@,
            wallet_lock: self.wallet_lock@,
            tx_fee: self.tx_fee,
            declared: views(self.declared@),
            cells: views(self.cells@),
            dep_groups: views(self.dep_groups@),
            pre_inputs: views(self.pre_inputs@),
            txs: views(self.txs@),
            cell_recipes: views(self.cell_recipes@),
            dep_group_recipes: views(self.dep_group_recipes@),
            change: views(self.change@),
            inputs: views(self.inputs@),
            reserved: views(self.reserved@),
            stage: self.stage@,
        }
    }
}

/// Appends out-points to a list.
fn append_out_points(list: &mut Vec<OutPoint>, more: &Vec<OutPoint>)
    ensures
        views(final(list)@) == views(old(list)@) + views(more@),
{
    let mut i: usize = 0;
    while i < more.len()
        invariant
            i <= more.len(),
            list@ == old(list)@ + more@.subrange(0, i as int),
        decreases more.len() - i,
    {
        list.push(more[i]);
        i += 1;
    }
    proof {
        lemma_views_add(old(list)@, more@);
    }
}

/// The out-points that a transaction spends.
fn spent_out_points(tx: &TransactionRecord) -> (r: Vec<OutPoint>)
    ensures
        views(r@) == spent_by(tx@),
{
    let mut out: Vec<OutPoint> = Vec::new();
    let mut i: usize = 0;
    while i < tx.inputs.len()
        invariant
            i <= tx.inputs.len(),
            out.len() == i,
            forall|j: int| 0 <= j < i ==> (#[trigger] out@[j])@ == tx.inputs@[j]@.previous_output,
        decreases tx.inputs.len() - i,
    {
        out.push(tx.inputs[i].previous_output);
        i += 1;
    }
    out
}

impl RecipeBuilder {
    /// A run that has not begun. `declared` are all the cells of the
    /// deployment, `cells` those to deploy, each with its data, and `lock`
    /// guards what is deployed.
    pub fn new(
        lock: Script,
        declared: Vec<Cell>,
        cells: Vec<CellPayload>,
        dep_groups: Vec<DepGroup>,
        pre_inputs: Vec<PreInput>,
        wallet_lock: Script,
        tx_fee: u64,
    ) -> (r: RecipeBuilder)
        ensures
            r@ == initial(
                lock@,
                views(declared@),
                views(cells@),
                views(dep_groups@),
                views(pre_inputs@),
                wallet_lock@,
                tx_fee,
            ),
            reached(r@),
    {
        let r = RecipeBuilder {
            lock,
            wallet_lock,
            tx_fee,
            declared,
            cells,
            dep_groups,
            pre_inputs,
            txs: Vec::new(),
            cell_recipes: Vec::new(),
            dep_group_recipes: Vec::new(),
            change: Vec::new(),
            inputs: Vec::new(),
            reserved: Vec::new(),
            stage: Stage::Idle,
        };
        proof {
            assert(r@.txs =~= Seq::empty());
            assert(r@.cell_recipes =~= Seq::empty());
            assert(r@.dep_group_recipes =~= Seq::empty());
            assert(r@.change =~= Seq::empty());
            assert(r@.reserved =~= Seq::empty());
            assert(fresh(r@));
            assert(r@ == crate::invariants::run(r@, Seq::empty()));
        }
        r
    }

    /// Every out-point that a name of this run stands for has a
    /// transaction hash of 32 bytes.
    pub proof fn lemma_resolved_hash_length(self, name: Seq<char>)
        ensures
            resolve_name(self@.declared, self@.cell_recipes, name) is Some ==> resolve_name(
                self@.declared,
                self@.cell_recipes,
                name,
            )->0.tx_hash.len() == 32,
    {
        lemma_first_index(self@.declared, cell_named(name));
        lemma_first_index(self@.cell_recipes, recipe_named(name));
    }

    fn fail(&mut self, e: DeployError) -> (action: BuildAction)
        ensures
            (final(self)@, action@) == fail(old(self)@, e@),
    {
        self.stage = Stage::Failed(e.copy());
        BuildAction::Failed(e)
    }

    fn submit(&mut self, r: Result<FundingRequest, DeployError>) -> (action: BuildAction)
        ensures
            (final(self)@, action@) == submit(old(self)@, request_result_view(r)),
    {
        match r {
            Err(e) => self.fail(e),
            Ok(request) => {
                self.stage = Stage::Completing(request.draft.copy());
                BuildAction::Complete { request, tx_fee: self.tx_fee }
            },
        }
    }

    fn proceed(&mut self) -> (action: BuildAction)
        ensures
            (final(self)@, action@) == proceed(old(self)@),
    {
        let k: usize = self.txs.len();
        if k < self.cells.len() {
            if self.cells[k].cell.enable_type_id {
                if self.inputs.len() == 0 {
                    self.stage = Stage::Collecting;
                    BuildAction::Collect { min_capacity: SEED_CAPACITY }
                } else if self.change.len() > 0 && find_pre_input(
                    &self.pre_inputs,
                    &self.cells[k].cell.name,
                ).is_none() {
                    let payload = &self.cells[k];
                    let type_script = Some(build_type_id_script(&self.inputs[0].input(), 0));
                    let r = build_cell_tx(&self.lock, &payload.data, &self.inputs, &type_script);
                    self.submit(r)
                } else {
                    self.stage = Stage::Querying;
                    BuildAction::QueryFunding(self.inputs[0].out_point())
                }
            } else {
                let payload = &self.cells[k];
                let r = build_cell_tx(&self.lock, &payload.data, &self.inputs, &None);
                self.submit(r)
            }
        } else if k - self.cells.len() < self.dep_groups.len() {
            let g: usize = k - self.cells.len();
            match resolve_out_points(&self.dep_groups[g], &self.declared, &self.cell_recipes) {
                Err(e) => self.fail(e),
                Ok(points) => {
                    let r = build_dep_group_tx(&self.lock, &points, &self.inputs);
                    self.submit(r)
                },
            }
        } else {
            self.fail(DeployError::UnexpectedEvent)
        }
    }

    fn begin(&mut self) -> (action: BuildAction)
        ensures
            (final(self)@, action@) == begin(old(self)@),
    {
        let k: usize = self.txs.len();
        let inputs = if k < self.cells.len() {
            gather_inputs(&self.pre_inputs, &self.cells[k].cell.name, &self.change)
        } else if k - self.cells.len() < self.dep_groups.len() {
            let dep_group = &self.dep_groups[k - self.cells.len()];
            if let Err(e) = resolve_out_points(dep_group, &self.declared, &self.cell_recipes) {
                return self.fail(e);
            }
            gather_inputs(&self.pre_inputs, &dep_group.name, &self.change)
        } else {
            self.stage = Stage::Finished;
            return BuildAction::Finished;
        };
        self.inputs = inputs;
        if self.inputs.len() > 0 {
            let points = make_out_points(&self.inputs);
            append_out_points(&mut self.reserved, &points);
            self.stage = Stage::Reserving;
            BuildAction::Reserve(points)
        } else {
            self.proceed()
        }
    }

    fn record(&mut self, tx: TransactionRecord) -> (action: BuildAction)
        requires
            tx@.paired() <= u32::MAX,
        ensures
            (final(self)@, action@) == record(old(self)@, tx@),
    {
        let k: usize = self.txs.len();
        if k < self.cells.len() {
            match build_cell_recipe(&tx, &self.cells[k].cell) {
                Err(e) => self.fail(e),
                Ok(recipe) => {
                    proof {
                        lemma_views_push(self.txs@, tx);
                        lemma_views_push(self.cell_recipes@, recipe);
                    }
                    self.change = search_changes(&tx, &self.wallet_lock);
                    let spent = spent_out_points(&tx);
                    append_out_points(&mut self.reserved, &spent);
                    self.txs.push(tx);
                    self.cell_recipes.push(recipe);
                    self.begin()
                },
            }
        } else if k - self.cells.len() < self.dep_groups.len() {
            match build_dep_group_recipe(&tx, &self.dep_groups[k - self.cells.len()]) {
                Err(e) => self.fail(e),
                Ok(recipe) => {
                    proof {
                        lemma_views_push(self.txs@, tx);
                        lemma_views_push(self.dep_group_recipes@, recipe);
                    }
                    self.change = search_changes(&tx, &self.wallet_lock);
                    let spent = spent_out_points(&tx);
                    append_out_points(&mut self.reserved, &spent);
                    self.txs.push(tx);
                    self.dep_group_recipes.push(recipe);
                    self.begin()
                },
            }
        } else {
            self.fail(DeployError::UnexpectedEvent)
        }
    }

    fn funded(&mut self, existing: Option<CellOutput>) -> (action: BuildAction)
        ensures
            (final(self)@, action@) == funded(old(self)@, output_opt_view(existing)),
    {
        let k: usize = self.txs.len();
        match existing {
            None => self.fail(DeployError::FundingOutputNotFound),
            Some(output) => {
                if k < self.cells.len() && self.inputs.len() > 0 {
                    let first = self.inputs[0].input();
                    let type_script = Some(select_type_id(&output, &first));
                    let r = build_cell_tx(
                        &self.lock,
                        &self.cells[k].data,
                        &self.inputs,
                        &type_script,
                    );
                    self.submit(r)
                } else {
                    self.fail(DeployError::UnexpectedEvent)
                }
            },
        }
    }

    fn collected(&mut self, cells: Vec<LiveCell>) -> (action: BuildAction)
        ensures
            (final(self)@, action@) == collected(old(self)@, views(cells@)),
    {
        if cells.len() == 0 {
            self.fail(DeployError::NoFundingInput)
        } else {
            self.inputs = cells;
            let points = make_out_points(&self.inputs);
            append_out_points(&mut self.reserved, &points);
            self.stage = Stage::Reserving;
            BuildAction::Reserve(points)
        }
    }

    fn completed(&mut self, tx: TransactionRecord) -> (action: BuildAction)
        requires
            old(self).stage is Completing,
        ensures
            (final(self)@, action@) == completed(old(self)@, old(self)@.stage->Completing_0, tx@),
    {
        let ok = match &self.stage {
            Stage::Completing(draft) => check_completion(draft, &tx),
            _ => false,
        };
        if ok {
            self.record(tx)
        } else {
            self.fail(DeployError::CompletionMismatch)
        }
    }

    /// Takes the wallet's answer and says what to do next.
    pub fn step(&mut self, event: BuildEvent) -> (action: BuildAction)
        ensures
            (final(self)@, action@) == step(old(self)@, event@),
            reached(old(self)@) ==> reached(final(self)@),
    {
        proof {
            if reached(self@) {
                lemma_step_reached(self@, event@);
            }
        }
        match &self.stage {
            Stage::Finished => BuildAction::Finished,
            Stage::Failed(e) => BuildAction::Failed(e.copy()),
            Stage::Idle => match event {
                BuildEvent::Start => self.begin(),
                _ => self.fail(DeployError::UnexpectedEvent),
            },
            Stage::Reserving => match event {
                BuildEvent::Reserved => self.proceed(),
                BuildEvent::Failed => self.fail(DeployError::WalletFailed),
                _ => self.fail(DeployError::UnexpectedEvent),
            },
            Stage::Collecting => match event {
                BuildEvent::Collected(cells) => self.collected(cells),
                BuildEvent::Failed => self.fail(DeployError::WalletFailed),
                _ => self.fail(DeployError::UnexpectedEvent),
            },
            Stage::Querying => match event {
                BuildEvent::FundingOutput(existing) => self.funded(existing),
                BuildEvent::Failed => self.fail(DeployError::WalletFailed),
                _ => self.fail(DeployError::UnexpectedEvent),
            },
            Stage::Completing(_) => match event {
                BuildEvent::Completed(tx) => self.completed(tx),
                BuildEvent::Failed => self.fail(DeployError::WalletFailed),
                _ => self.fail(DeployError::UnexpectedEvent),
            },
        }
    }

    /// Every out-point that the wallet was told to reserve in this run, in
    /// order.
    pub fn reserved(&self) -> (r: &Vec<OutPoint>)
        ensures
            views(r@) == self@.reserved,
    {
        &self.reserved
    }

    /// Whether every artifact is built.
    pub fn is_finished(&self) -> (r: bool)
        ensures
            r == (self@.stage is Finished),
    {
        match &self.stage {
            Stage::Finished => true,
            _ => false,
        }
    }

    /// Ends the run. Hands over the manifest and the transactions if every
    /// artifact is built, and nothing before that or after a failure.
    pub fn finish(self) -> (r: Option<Prepared>)
        ensures
            prepared_opt_view(r) == outcome(self@),
    {
        match self.stage {
            Stage::Finished => Some(
                Prepared {
                    recipe: DeploymentRecipe {
                        cell_recipes: self.cell_recipes,
                        dep_group_recipes: self.dep_group_recipes,
                    },
                    txs: self.txs,
                },
            ),
            _ => None,
        }
    }
}

} // verus!
