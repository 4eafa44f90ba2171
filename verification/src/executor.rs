//! The executor: it replays the transactions of a manifest to the ledger,
//! in the order in which they were built. The ledger is asked and told
//! through an `ExecAction`; its answer comes back as an `ExecEvent`.

use crate::error::{DeployError, DeployErrorView};
use crate::lookup::{first_index, index_view, lemma_first_index_is, lemma_first_index_none};
use crate::recipe::{DeploymentRecipe, DeploymentRecipeView};
use crate::types::{lemma_views_push, views, H256};
use vstd::prelude::*;

verus! {

/// Whether a transaction is sent again when the ledger may have it
/// already.
#[derive(Clone, Copy, Debug, PartialEq, Eq)]
pub enum ResumePolicy {
    /// Send, whatever the ledger knows.
    Always,
    /// Ask the ledger first, and send only what it does not know.
    SkipIfConfirmed,
}

/// One transaction to replay.
#[derive(Clone, Copy, Debug, PartialEq, Eq)]
pub struct PlanItem {
    pub tx_hash: H256,
    pub policy: ResumePolicy,
}

pub ghost struct PlanItemView {
    pub tx_hash: Seq<u8>,
    pub policy: ResumePolicy,
}

impl View for PlanItem {
    type V = PlanItemView;

    open spec fn view(&self) -> PlanItemView {
        PlanItemView { tx_hash: self.tx_hash@, policy: self.policy }
    }
}

/// What the ledger answers.
#[derive(Clone, Copy, Debug, PartialEq, Eq)]
pub enum ExecEvent {
    /// Nothing yet: the replay begins.
    Start,
    /// Whether the ledger knows the transaction asked about.
    Known(bool),
    /// The ledger took the transaction.
    Sent,
    /// The ledger refused the transaction, or could not be asked.
    Failed,
}

/// What the executor asks of the ledger, or how the replay ended.
#[derive(Clone, Debug, PartialEq, Eq)]
pub enum ExecAction {
    /// Ask whether the ledger knows this transaction. Answer with `Known`.
    Query(H256),
    /// Send the signed transaction at `position`. It is the `ordinal`-th
    /// that this replay sends, of `total` signed transactions. Answer with
    /// `Sent`.
    Send { position: usize, ordinal: usize, total: usize, tx_hash: H256 },
    /// Nothing is left to send.
    Finished,
    /// The replay is over; what was sent stays sent.
    Failed(DeployError),
}

pub ghost enum ExecActionView {
    Query(Seq<u8>),
    Send { position: int, ordinal: int, total: int, tx_hash: Seq<u8> },
    Finished,
    Failed(DeployErrorView),
}

impl View for ExecAction {
    type V = ExecActionView;

    open spec fn view(&self) -> ExecActionView {
        match *self {
            ExecAction::Query(h) => ExecActionView::Query(h@),
            ExecAction::Send { position, ordinal, total, tx_hash } => ExecActionView::Send {
                position: position as int,
                ordinal: ordinal as int,
                total: total as int,
                tx_hash: tx_hash@,
            },
            ExecAction::Finished => ExecActionView::Finished,
            ExecAction::Failed(e) => ExecActionView::Failed(e@),
        }
    }
}

/// Where the executor stands with the transaction in progress.
#[derive(Clone, Debug, PartialEq, Eq)]
pub enum ExecStage {
    Idle,
    Querying,
    Sending,
    Finished,
    Failed(DeployError),
}

pub ghost enum ExecStageView {
    Idle,
    Querying,
    Sending,
    Finished,
    Failed(DeployErrorView),
}

impl View for ExecStage {
    type V = ExecStageView;

    open spec fn view(&self) -> ExecStageView {
        match *self {
            ExecStage::Idle => ExecStageView::Idle,
            ExecStage::Querying => ExecStageView::Querying,
            ExecStage::Sending => ExecStageView::Sending,
            ExecStage::Finished => ExecStageView::Finished,
            ExecStage::Failed(e) => ExecStageView::Failed(e@),
        }
    }
}

/// The state of a replay, as the contracts see it.
pub ghost struct ExecutorView {
    /// The transactions to replay, in order.
    pub plan: Seq<PlanItemView>,
    /// The hashes of the signed transactions at hand.
    pub tx_hashes: Seq<Seq<u8>>,
    /// How many items of the plan are done.
    pub next: int,
    /// The hashes of the transactions handed to the ledger, in the order
    /// of sending. While the answer `Sent` is awaited, the last of them is
    /// the one under way; it leaves the list if the ledger refuses it.
    pub sent: Seq<Seq<u8>>,
    pub stage: ExecStageView,
}

/// The plan of a manifest: its cells, each with the policy for cells, then
/// its dependency groups, each with the policy for groups.
pub open spec fn plan_of(
    recipe: DeploymentRecipeView,
    cell_policy: ResumePolicy,
    group_policy: ResumePolicy,
) -> Seq<PlanItemView> {
    Seq::new(
        recipe.cell_recipes.len(),
        |i: int| PlanItemView { tx_hash: recipe.cell_recipes[i].tx_hash, policy: cell_policy },
    ) + Seq::new(
        recipe.dep_group_recipes.len(),
        |i: int|
            PlanItemView { tx_hash: recipe.dep_group_recipes[i].tx_hash, policy: group_policy },
    )
}

/// The state in which a replay begins.
pub open spec fn initial(plan: Seq<PlanItemView>, tx_hashes: Seq<Seq<u8>>) -> ExecutorView {
    ExecutorView { plan, tx_hashes, next: 0, sent: Seq::empty(), stage: ExecStageView::Idle }
}

/// The hashes equal to `h`.
pub open spec fn hash_is(h: Seq<u8>) -> spec_fn(Seq<u8>) -> bool {
    |x: Seq<u8>| x == h
}

/// The replay fails: the error is kept, and nothing else changes.
pub open spec fn fail(s: ExecutorView, e: DeployErrorView) -> (ExecutorView, ExecActionView) {
    (ExecutorView { stage: ExecStageView::Failed(e), ..s }, ExecActionView::Failed(e))
}

/// The transaction in progress is sent: the first signed transaction with
/// its hash. That there is none is an error.
pub open spec fn send(s: ExecutorView) -> (ExecutorView, ExecActionView) {
    let h = s.plan[s.next].tx_hash;
    match first_index(s.tx_hashes, hash_is(h)) {
        None => fail(s, DeployErrorView::MissingTransaction { tx_hash: h }),
        Some(p) => (
            ExecutorView { sent: s.sent.push(h), stage: ExecStageView::Sending, ..s },
            ExecActionView::Send {
                position: p,
                ordinal: s.sent.len() as int + 1,
                total: s.tx_hashes.len() as int,
                tx_hash: h,
            },
        ),
    }
}

/// The next transaction of the plan begins, or the replay is finished. A
/// transaction that may be skipped is asked about first.
pub open spec fn begin(s: ExecutorView) -> (ExecutorView, ExecActionView) {
    if !(0 <= s.next < s.plan.len()) {
        (ExecutorView { stage: ExecStageView::Finished, ..s }, ExecActionView::Finished)
    } else {
        match s.plan[s.next].policy {
            ResumePolicy::SkipIfConfirmed => (
                ExecutorView { stage: ExecStageView::Querying, ..s },
                ExecActionView::Query(s.plan[s.next].tx_hash),
            ),
            ResumePolicy::Always => send(s),
        }
    }
}

/// The transaction in progress is done.
pub open spec fn advance(s: ExecutorView) -> (ExecutorView, ExecActionView) {
    begin(ExecutorView { next: s.next + 1, ..s })
}

/// The ledger failed: the replay ends. A transaction that was under way
/// was not sent, and leaves the list of those sent.
pub open spec fn ledger_failed(s: ExecutorView) -> (ExecutorView, ExecActionView) {
    let sent = if s.stage is Sending && s.sent.len() > 0 {
        s.sent.drop_last()
    } else {
        s.sent
    };
    fail(ExecutorView { sent, ..s }, DeployErrorView::LedgerFailed)
}

/// One step of the replay. A transaction that the ledger knows is
/// skipped; one that it does not know is sent. A failure of the ledger
/// ends the replay at once, and so does an answer that the pending request
/// did not ask for. A replay that is finished or has failed stays as it is
/// and asks nothing more.
pub open spec fn step(s: ExecutorView, e: ExecEvent) -> (ExecutorView, ExecActionView) {
    match s.stage {
        ExecStageView::Finished => (s, ExecActionView::Finished),
        ExecStageView::Failed(err) => (s, ExecActionView::Failed(err)),
        ExecStageView::Idle => match e {
            ExecEvent::Start => begin(s),
            _ => fail(s, DeployErrorView::UnexpectedEvent),
        },
        ExecStageView::Querying => match e {
            ExecEvent::Known(known) => if !(0 <= s.next < s.plan.len()) {
                fail(s, DeployErrorView::UnexpectedEvent)
            } else if known {
                advance(s)
            } else {
                send(s)
            },
            ExecEvent::Failed => ledger_failed(s),
            _ => fail(s, DeployErrorView::UnexpectedEvent),
        },
        ExecStageView::Sending => match e {
            ExecEvent::Sent => if !(0 <= s.next < s.plan.len()) {
                fail(s, DeployErrorView::UnexpectedEvent)
            } else {
                advance(s)
            },
            ExecEvent::Failed => ledger_failed(s),
            _ => fail(s, DeployErrorView::UnexpectedEvent),
        },
    }
}

/// The position of the first signed transaction with the given hash.
pub fn find_tx(tx_hashes: &Vec<H256>, tx_hash: &H256) -> (r: Option<usize>)
    ensures
        index_view(r) == first_index(views(tx_hashes@), hash_is(tx_hash@)),
        r is Some ==> r->0 < tx_hashes.len(),
{
    let mut i: usize = 0;
    while i < tx_hashes.len()
        invariant
            i <= tx_hashes.len(),
            forall|j: int| 0 <= j < i ==> !hash_is(tx_hash@)(#[trigger] views(tx_hashes@)[j]),
        decreases tx_hashes.len() - i,
    {
        if tx_hashes[i].equals(tx_hash) {
            proof {
                lemma_first_index_is(views(tx_hashes@), hash_is(tx_hash@), i as int);
            }
            return Some(i);
        }
        i += 1;
    }
    proof {
        lemma_first_index_none(views(tx_hashes@), hash_is(tx_hash@));
    }
    None
}

/// Lays out the plan of a manifest.
pub fn make_plan(
    recipe: &DeploymentRecipe,
    cell_policy: ResumePolicy,
    group_policy: ResumePolicy,
) -> (r: Vec<PlanItem>)
    ensures
        views(r@) == plan_of(recipe@, cell_policy, group_policy),
{
    let mut plan: Vec<PlanItem> = Vec::new();
    let mut i: usize = 0;
    while i < recipe.cell_recipes.len()
        invariant
            i <= recipe.cell_recipes.len(),
            plan.len() == i,
            forall|j: int|
                0 <= j < i ==> (#[trigger] plan@[j])@ == (PlanItemView {
                    tx_hash: recipe.cell_recipes@[j].tx_hash@,
                    policy: cell_policy,
                }),
        decreases recipe.cell_recipes.len() - i,
    {
        plan.push(PlanItem { tx_hash: recipe.cell_recipes[i].tx_hash, policy: cell_policy });
        i += 1;
    }
    let n: usize = recipe.cell_recipes.len();
    let mut k: usize = 0;
    while k < recipe.dep_group_recipes.len()
        invariant
            k <= recipe.dep_group_recipes.len(),
            n == recipe.cell_recipes.len(),
            plan.len() == n + k,
            forall|j: int|
                0 <= j < n ==> (#[trigger] plan@[j])@ == (PlanItemView {
                    tx_hash: recipe.cell_recipes@[j].tx_hash@,
                    policy: cell_policy,
                }),
            forall|j: int|
                0 <= j < k ==> (#[trigger] plan@[n + j])@ == (PlanItemView {
                    tx_hash: recipe.dep_group_recipes@[j].tx_hash@,
                    policy: group_policy,
                }),
        decreases recipe.dep_group_recipes.len() - k,
    {
        plan.push(PlanItem { tx_hash: recipe.dep_group_recipes[k].tx_hash, policy: group_policy });
        k += 1;
    }
    proof {
        let want = plan_of(recipe@, cell_policy, group_policy);
        assert forall|j: int| 0 <= j < want.len() implies views(plan@)[j] == want[j] by {
            if j >= n {
                assert(plan@[n + (j - n)]@ == want[j]);
            }
        }
    }
    plan
}

/// A replay of a manifest.
pub struct Executor {
    plan: Vec<PlanItem>,
    tx_hashes: Vec<H256>,
    next: usize,
    sent: Vec<H256>,
    stage: ExecStage,
}

impl View for Executor {
    type V = ExecutorView;

    closed spec fn view(&self) -> ExecutorView {
        ExecutorView {
            plan: views(self.plan@),
            tx_hashes: views(self.tx_hashes@),
            next: self.next as int,
            sent: views(self.sent@),
            stage: self.stage@,
        }
    }
}

impl Executor {
    /// A replay that has not begun, of the manifest `recipe` with the
    /// signed transactions whose hashes are `tx_hashes`.
    pub fn new(
        recipe: &DeploymentRecipe,
        tx_hashes: Vec<H256>,
        cell_policy: ResumePolicy,
        group_policy: ResumePolicy,
    ) -> (r: Executor)
        ensures
            r@ == initial(plan_of(recipe@, cell_policy, group_policy), views(tx_hashes@)),
    {
        let r = Executor {
            plan: make_plan(recipe, cell_policy, group_policy),
            tx_hashes,
            next: 0,
            sent: Vec::new(),
            stage: ExecStage::Idle,
        };
        assert(r@.sent =~= Seq::empty());
        r
    }

    fn fail(&mut self, e: DeployError) -> (action: ExecAction)
        ensures
            (final(self)@, action@) == fail(old(self)@, e@),
    {
        self.stage = ExecStage::Failed(e.copy());
        ExecAction::Failed(e)
    }

    fn send(&mut self) -> (action: ExecAction)
        requires
            old(self).next < old(self).plan.len(),
        ensures
            (final(self)@, action@) == send(old(self)@),
    {
        let tx_hash = self.plan[self.next].tx_hash;
        match find_tx(&self.tx_hashes, &tx_hash) {
            None => self.fail(DeployError::MissingTransaction { tx_hash }),
            Some(position) => {
                proof {
                    lemma_views_push(self.sent@, tx_hash);
                }
                self.sent.push(tx_hash);
                self.stage = ExecStage::Sending;
                ExecAction::Send {
                    position,
                    ordinal: self.sent.len(),
                    total: self.tx_hashes.len(),
                    tx_hash,
                }
            },
        }
    }

    fn begin(&mut self) -> (action: ExecAction)
        ensures
            (final(self)@, action@) == begin(old(self)@),
    {
        if self.next >= self.plan.len() {
            self.stage = ExecStage::Finished;
            return ExecAction::Finished;
        }
        match self.plan[self.next].policy {
            ResumePolicy::SkipIfConfirmed => {
                self.stage = ExecStage::Querying;
                ExecAction::Query(self.plan[self.next].tx_hash)
            },
            ResumePolicy::Always => self.send(),
        }
    }

    fn advance(&mut self) -> (action: ExecAction)
        requires
            old(self).next < old(self).plan.len(),
        ensures
            (final(self)@, action@) == advance(old(self)@),
    {
        self.next = self.next + 1;
        self.begin()
    }

    /// Takes the ledger's answer and says what to do next.
    pub fn step(&mut self, event: ExecEvent) -> (action: ExecAction)
        ensures
            (final(self)@, action@) == step(old(self)@, event),
    {
        match &self.stage {
            ExecStage::Finished => ExecAction::Finished,
            ExecStage::Failed(e) => ExecAction::Failed(e.copy()),
            ExecStage::Idle => match event {
                ExecEvent::Start => self.begin(),
                _ => self.fail(DeployError::UnexpectedEvent),
            },
            ExecStage::Querying => match event {
                ExecEvent::Known(known) => {
                    if self.next >= self.plan.len() {
                        self.fail(DeployError::UnexpectedEvent)
                    } else if known {
                        self.advance()
                    } else {
                        self.send()
                    }
                },
                ExecEvent::Failed => self.fail(DeployError::LedgerFailed),
                _ => self.fail(DeployError::UnexpectedEvent),
            },
            ExecStage::Sending => match event {
                ExecEvent::Sent => {
                    if self.next >= self.plan.len() {
                        self.fail(DeployError::UnexpectedEvent)
                    } else {
                        self.advance()
                    }
                },
                ExecEvent::Failed => {
                    let ghost before = self.sent@;
                    self.sent.pop();
                    proof {
                        if before.len() > 0 {
                            assert(views(self.sent@) =~= views(before).drop_last());
                        }
                    }
                    self.fail(DeployError::LedgerFailed)
                },
                _ => self.fail(DeployError::UnexpectedEvent),
            },
        }
    }

    /// The hashes of the transactions handed to the ledger so far, in the
    /// order of sending.
    pub fn sent(&self) -> (r: &Vec<H256>)
        ensures
            views(r@) == self@.sent,
    {
        &self.sent
    }
}

} // verus!
