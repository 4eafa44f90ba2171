//! What holds of a replay against a ledger, whatever the ledger knows.

use crate::error::DeployErrorView;
use crate::executor::{
    advance, begin, fail, initial, plan_of, send, step, ExecActionView, ExecEvent, ExecStageView,
    ExecutorView, PlanItemView, ResumePolicy,
};
use crate::recipe::DeploymentRecipeView;
use vstd::prelude::*;

verus! {

/// The answer of a ledger that knows the transactions `known`, to what the
/// executor asked last.
pub open spec fn answer(s: ExecutorView, known: spec_fn(Seq<u8>) -> bool) -> ExecEvent {
    match s.stage {
        ExecStageView::Querying => ExecEvent::Known(known(s.plan[s.next].tx_hash)),
        ExecStageView::Sending => ExecEvent::Sent,
        _ => ExecEvent::Start,
    }
}

/// The state after `n` steps of a replay against such a ledger.
pub open spec fn replay(s: ExecutorView, known: spec_fn(Seq<u8>) -> bool, n: nat) -> ExecutorView
    decreases n,
{
    if n == 0 {
        s
    } else {
        replay(step(s, answer(s, known)).0, known, (n - 1) as nat)
    }
}

/// The first `cells` items of the plan are always sent, the others only
/// when the ledger does not know them.
pub open spec fn cells_then_groups(plan: Seq<PlanItemView>, cells: int) -> bool {
    &&& 0 <= cells <= plan.len()
    &&& forall|k: int| 0 <= k < cells ==> (#[trigger] plan[k]).policy == ResumePolicy::Always
    &&& forall|k: int|
        cells <= k < plan.len() ==> (#[trigger] plan[k]).policy == ResumePolicy::SkipIfConfirmed
}

/// What was sent is the first `n` transactions of the plan, in order.
pub open spec fn sent_first(s: ExecutorView, n: int) -> bool {
    &&& s.sent.len() == n
    &&& forall|i: int| 0 <= i < n ==> s.sent[i] == s.plan[i].tx_hash
}

/// A state of a replay in which no dependency group was sent: what was
/// sent are cells, in the order of the plan, each once.
pub open spec fn only_cells_sent(s: ExecutorView, cells: int) -> bool {
    match s.stage {
        ExecStageView::Idle => s.next == 0 && sent_first(s, 0),
        ExecStageView::Sending => 0 <= s.next < cells && sent_first(s, s.next + 1),
        ExecStageView::Querying => cells <= s.next < s.plan.len() && sent_first(s, cells),
        ExecStageView::Finished => sent_first(s, cells),
        ExecStageView::Failed(_) => exists|n: int| 0 <= n <= cells && sent_first(s, n),
    }
}

proof fn lemma_begin_only_cells(s: ExecutorView, cells: int)
    requires
        cells_then_groups(s.plan, cells),
        0 <= s.next <= s.plan.len(),
        if s.next <= cells {
            sent_first(s, s.next)
        } else {
            sent_first(s, cells)
        },
    ensures
        only_cells_sent(begin(s).0, cells),
{
    let t = begin(s).0;
    if s.next < cells && t.stage is Failed {
        assert(sent_first(t, s.next));
    }
}

proof fn lemma_step_only_cells(s: ExecutorView, cells: int, known: spec_fn(Seq<u8>) -> bool)
    requires
        cells_then_groups(s.plan, cells),
        only_cells_sent(s, cells),
        forall|k: int| cells <= k < s.plan.len() ==> known(#[trigger] s.plan[k].tx_hash),
    ensures
        only_cells_sent(step(s, answer(s, known)).0, cells),
        step(s, answer(s, known)).0.plan == s.plan,
{
    match s.stage {
        ExecStageView::Idle => lemma_begin_only_cells(s, cells),
        ExecStageView::Sending => {
            lemma_begin_only_cells(ExecutorView { next: s.next + 1, ..s }, cells);
        },
        ExecStageView::Querying => {
            lemma_begin_only_cells(ExecutorView { next: s.next + 1, ..s }, cells);
        },
        ExecStageView::Finished => {},
        ExecStageView::Failed(_) => {},
    }
}

proof fn lemma_replay_only_cells(
    s: ExecutorView,
    cells: int,
    known: spec_fn(Seq<u8>) -> bool,
    n: nat,
)
    requires
        cells_then_groups(s.plan, cells),
        only_cells_sent(s, cells),
        forall|k: int| cells <= k < s.plan.len() ==> known(#[trigger] s.plan[k].tx_hash),
    ensures
        only_cells_sent(replay(s, known, n), cells),
        replay(s, known, n).plan == s.plan,
    decreases n,
{
    if n > 0 {
        lemma_step_only_cells(s, cells, known);
        lemma_replay_only_cells(step(s, answer(s, known)).0, cells, known, (n - 1) as nat);
    }
}

/// A replay is idempotent for dependency groups: against a ledger that
/// knows the transaction of every dependency group of the manifest, a
/// replay sends no dependency group, however long it runs. What it sends
/// are cells of the manifest, in their order.
pub proof fn lemma_confirmed_groups_are_not_sent(
    recipe: DeploymentRecipeView,
    tx_hashes: Seq<Seq<u8>>,
    known: spec_fn(Seq<u8>) -> bool,
    n: nat,
)
    requires
        forall|j: int|
            0 <= j < recipe.dep_group_recipes.len() ==> known(
                #[trigger] recipe.dep_group_recipes[j].tx_hash,
            ),
    ensures
        ({
            let plan = plan_of(recipe, ResumePolicy::Always, ResumePolicy::SkipIfConfirmed);
            let s = replay(initial(plan, tx_hashes), known, n);
            &&& s.sent.len() <= recipe.cell_recipes.len()
            &&& forall|i: int|
                0 <= i < s.sent.len() ==> s.sent[i] == recipe.cell_recipes[i].tx_hash
        }),
{
    let plan = plan_of(recipe, ResumePolicy::Always, ResumePolicy::SkipIfConfirmed);
    let cells = recipe.cell_recipes.len() as int;
    let first = initial(plan, tx_hashes);
    lemma_replay_only_cells(first, cells, known, n);
}

/// A transaction that the ledger knows is skipped: the answer sends
/// nothing for it, and the replay goes on with the transaction after it.
pub proof fn lemma_known_is_skipped(s: ExecutorView)
    requires
        s.stage is Querying,
        0 <= s.next < s.plan.len(),
    ensures
        step(s, ExecEvent::Known(true)) == advance(s),
        s.next + 1 < s.plan.len() && s.plan[s.next + 1].policy == ResumePolicy::SkipIfConfirmed
            ==> step(s, ExecEvent::Known(true)).0.sent == s.sent,
        s.next + 1 == s.plan.len() ==> step(s, ExecEvent::Known(true)).0.sent == s.sent && step(
            s,
            ExecEvent::Known(true),
        ).0.stage is Finished,
{
}

/// Transactions are sent in the order of the plan: a step sends at most
/// one transaction, the one in progress, and never goes back in the plan.
pub proof fn lemma_sends_follow_the_plan(s: ExecutorView, e: ExecEvent)
    requires
        0 <= s.next,
    ensures
        ({
            let t = step(s, e).0;
            &&& t.plan == s.plan
            &&& t.tx_hashes == s.tx_hashes
            &&& s.next <= t.next <= s.next + 1
            &&& t.sent == s.sent || (0 <= t.next < s.plan.len() && t.stage is Sending && t.sent
                == s.sent.push(s.plan[t.next].tx_hash)) || (e is Failed && s.stage is Sending
                && t.sent == s.sent.drop_last())
        }),
{
}

/// A failure of the ledger ends the replay at once. The transaction that
/// was under way is not among those sent; those sent before stay sent. From
/// then on the replay asks nothing more, whatever it is told: no later
/// transaction is asked about or sent, and nothing is tried again.
pub proof fn lemma_ledger_failure_ends_the_replay(s: ExecutorView, later: ExecEvent)
    requires
        s.stage is Querying || s.stage is Sending,
    ensures
        ({
            let (failed, action) = step(s, ExecEvent::Failed);
            &&& action == ExecActionView::Failed(DeployErrorView::LedgerFailed)
            &&& failed.stage == ExecStageView::Failed(DeployErrorView::LedgerFailed)
            &&& failed.plan == s.plan && failed.next == s.next
            &&& s.stage is Querying ==> failed.sent == s.sent
            &&& s.stage is Sending && s.sent.len() > 0 ==> failed.sent == s.sent.drop_last()
            &&& step(failed, later) == (
                failed,
                ExecActionView::Failed(DeployErrorView::LedgerFailed),
            )
        }),
{
}

/// A transaction of the manifest that is not among the signed
/// transactions ends the replay when its turn to be sent comes.
pub proof fn lemma_missing_transaction_fails(s: ExecutorView)
    requires
        0 <= s.next < s.plan.len(),
        forall|i: int| 0 <= i < s.tx_hashes.len() ==> s.tx_hashes[i] != s.plan[s.next].tx_hash,
    ensures
        send(s) == fail(
            s,
            crate::error::DeployErrorView::MissingTransaction { tx_hash: s.plan[s.next].tx_hash },
        ),
{
    crate::lookup::lemma_first_index(s.tx_hashes, crate::executor::hash_is(s.plan[s.next].tx_hash));
}

} // verus!
