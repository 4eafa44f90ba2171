//! A deployment from its declaration to the ledger: the check that comes
//! before anything is built, the run that builds the batch, and the replay
//! that sends it.

use crate::builder::{initial, BuilderView, RecipeBuilder};
use crate::config::{
    copy_cells, copy_dep_groups, deployable, deployable_cells, pair_payloads, payloads_of, Cell,
    Deployment, DeploymentView, PreInput, PreInputView,
};
use crate::error::{DeployError, DeployErrorView};
use crate::invariants::reached;
use crate::executor::{plan_of, Executor, ResumePolicy};
use crate::lookup::{first_index, lemma_first_index_is, lemma_first_index_none};
use crate::recipe::DeploymentRecipe;
use crate::types::{views, Script, ScriptView, H256};
use vstd::prelude::*;

verus! {

/// The pre-selected inputs that the lock `wallet_lock` does not guard.
pub open spec fn locked_otherwise(wallet_lock: ScriptView) -> spec_fn(PreInputView) -> bool {
    |p: PreInputView| p.lock != wallet_lock
}

/// What the check of the pre-selected inputs finds: the first of them that
/// the deployer cannot spend, reported with the name of its artifact and
/// the lock that guards it.
pub open spec fn pre_inputs_check(pre_inputs: Seq<PreInputView>, wallet_lock: ScriptView) -> Result<
    (),
    DeployErrorView,
> {
    match first_index(pre_inputs, locked_otherwise(wallet_lock)) {
        Some(i) => Err(
            DeployErrorView::LockMismatch { name: pre_inputs[i].name, lock: pre_inputs[i].lock },
        ),
        None => Ok(()),
    }
}

/// The view of the result of a check.
pub open spec fn check_view(r: Result<(), DeployError>) -> Result<(), DeployErrorView> {
    match r {
        Ok(_) => Ok(()),
        Err(e) => Err(e@),
    }
}

/// Checks that the deployer can spend every pre-selected input: that the
/// wallet's own lock guards each of them.
pub fn check_pre_inputs_unlockable(pre_inputs: &Vec<PreInput>, wallet_lock: &Script) -> (r: Result<
    (),
    DeployError,
>)
    ensures
        check_view(r) == pre_inputs_check(views(pre_inputs@), wallet_lock@),
{
    let mut i: usize = 0;
    while i < pre_inputs.len()
        invariant
            i <= pre_inputs.len(),
            forall|j: int|
                0 <= j < i ==> !locked_otherwise(wallet_lock@)(#[trigger] views(pre_inputs@)[j]),
        decreases pre_inputs.len() - i,
    {
        if !pre_inputs[i].lock.equals(wallet_lock) {
            proof {
                lemma_first_index_is(
                    views(pre_inputs@),
                    locked_otherwise(wallet_lock@),
                    i as int,
                );
            }
            return Err(
                DeployError::LockMismatch {
                    name: pre_inputs[i].name.clone(),
                    lock: pre_inputs[i].lock.copy(),
                },
            );
        }
        i += 1;
    }
    proof {
        lemma_first_index_none(views(pre_inputs@), locked_otherwise(wallet_lock@));
    }
    Ok(())
}

/// A deployment with what the wallet contributes to it: the lock that
/// marks the deployer's own cells, and the fee of each transaction.
pub struct DeploymentProcess {
    config: Deployment,
    wallet_lock: Script,
    tx_fee: u64,
}

pub ghost struct DeploymentProcessView {
    pub config: DeploymentView,
    pub wallet_lock: ScriptView,
    pub tx_fee: u64,
}

impl View for DeploymentProcess {
    type V = DeploymentProcessView;

    closed spec fn view(&self) -> DeploymentProcessView {
        DeploymentProcessView {
            config: self.config@,
            wallet_lock: self.wallet_lock@,
            tx_fee: self.tx_fee,
        }
    }
}

/// What preparing a run comes to. The pre-selected inputs are checked
/// first. Then there is to be one payload for each cell that the
/// deployment deploys from a file. The run begins with those cells, in the
/// order of their declaration, each with its payload; the deployment's
/// lock guards every cell and every dependency group.
pub open spec fn prepared(
    p: DeploymentProcessView,
    pre_inputs: Seq<PreInputView>,
    data: Seq<Seq<u8>>,
) -> Result<BuilderView, DeployErrorView> {
    match pre_inputs_check(pre_inputs, p.wallet_lock) {
        Err(e) => Err(e),
        Ok(_) => if data.len() != deployable(p.config.cells).len() {
            Err(DeployErrorView::PayloadMismatch)
        } else {
            Ok(
                initial(
                    p.config.lock,
                    p.config.cells,
                    payloads_of(p.config.cells, data),
                    p.config.dep_groups,
                    pre_inputs,
                    p.wallet_lock,
                    p.tx_fee,
                ),
            )
        },
    }
}

impl DeploymentProcess {
    pub fn new(config: Deployment, wallet_lock: Script, tx_fee: u64) -> (r: DeploymentProcess)
        ensures
            r@ == (DeploymentProcessView { config: config@, wallet_lock: wallet_lock@, tx_fee }),
    {
        DeploymentProcess { config, wallet_lock, tx_fee }
    }

    /// The cells that a run of this deployment deploys: those that come
    /// from a file, in the order of their declaration. A run needs one
    /// payload for each.
    pub fn deployable_cells(&self) -> (r: Vec<Cell>)
        ensures
            views(r@) == deployable(self@.config.cells),
    {
        deployable_cells(&self.config.cells)
    }

    /// Prepares the run that builds the manifest and the batch. `data`
    /// holds the payload of each cell to deploy, in the order of
    /// `deployable_cells`. Nothing is prepared unless the deployer can
    /// spend every pre-selected input and there is one payload for each
    /// cell to deploy.
    pub fn prepare_recipe(&self, pre_inputs: Vec<PreInput>, data: Vec<Vec<u8>>) -> (r: Result<
        RecipeBuilder,
        DeployError,
    >)
        ensures
            match r {
                Ok(builder) => prepared(self@, views(pre_inputs@), views(data@)) == Ok::<
                    BuilderView,
                    DeployErrorView,
                >(builder@) && reached(builder@),
                Err(e) => prepared(self@, views(pre_inputs@), views(data@)) == Err::<
                    BuilderView,
                    DeployErrorView,
                >(e@),
            },
    {
        match check_pre_inputs_unlockable(&pre_inputs, &self.wallet_lock) {
            Err(e) => Err(e),
            Ok(_) => match pair_payloads(&self.config.cells, &data) {
                None => Err(DeployError::PayloadMismatch),
                Some(cells) => Ok(
                    RecipeBuilder::new(
                        self.config.lock.copy(),
                        copy_cells(&self.config.cells),
                        cells,
                        copy_dep_groups(&self.config.dep_groups),
                        pre_inputs,
                        self.wallet_lock.copy(),
                        self.tx_fee,
                    ),
                ),
            },
        }
    }

    /// Prepares the replay of a manifest with the signed transactions
    /// whose hashes are `tx_hashes`, in their order. Cells are sent
    /// whatever the ledger knows; a dependency group that the ledger knows
    /// is not sent again.
    pub fn execute_recipe(&self, recipe: &DeploymentRecipe, tx_hashes: Vec<H256>) -> (r: Executor)
        ensures
            r@ == crate::executor::initial(
                plan_of(recipe@, ResumePolicy::Always, ResumePolicy::SkipIfConfirmed),
                views(tx_hashes@),
            ),
    {
        Executor::new(recipe, tx_hashes, ResumePolicy::Always, ResumePolicy::SkipIfConfirmed)
    }
}

} // verus!
