//! The ways in which a deployment fails.

use crate::types::{Script, ScriptView, H256};
use vstd::prelude::*;

verus! {

#[derive(Clone, Debug, PartialEq, Eq)]
pub enum DeployError {
    /// A pre-selected input of the named artifact is guarded by `lock`,
    /// which is not the wallet's own lock, so the deployer cannot spend it.
    LockMismatch { name: String, lock: Script },
    /// The payloads handed over are not one for each cell to deploy.
    PayloadMismatch,
    /// A dependency group refers to a cell that is not declared, or that
    /// this run has not deployed.
    CellNotFound { name: String, dep_group: String },
    /// A cell that keeps its identity needs an input to derive it from, and
    /// the wallet offered none.
    NoFundingInput,
    /// The ledger does not know the output that the first input spends.
    FundingOutputNotFound,
    /// A capacity does not fit in 64 bits.
    CapacityOverflow,
    /// The wallet handed back a transaction that does not start with the
    /// inputs chosen for it, or whose first output is not the artifact.
    CompletionMismatch,
    /// An answer arrived that the pending request did not ask for.
    UnexpectedEvent,
    /// The wallet could not do what the recipe builder asked of it.
    WalletFailed,
    /// The ledger refused a transaction, or could not be asked.
    LedgerFailed,
    /// The manifest names a transaction that is not among those to send.
    MissingTransaction { tx_hash: H256 },
}

pub ghost enum DeployErrorView {
    LockMismatch { name: Seq<char>, lock: ScriptView },
    PayloadMismatch,
    CellNotFound { name: Seq<char>, dep_group: Seq<char> },
    NoFundingInput,
    FundingOutputNotFound,
    CapacityOverflow,
    CompletionMismatch,
    UnexpectedEvent,
    WalletFailed,
    LedgerFailed,
    MissingTransaction { tx_hash: Seq<u8> },
}

impl View for DeployError {
    type V = DeployErrorView;

    open spec fn view(&self) -> DeployErrorView {
        match *self {
            DeployError::LockMismatch { name, lock } => DeployErrorView::LockMismatch {
                name: name@,
                lock: lock@,
            },
            DeployError::PayloadMismatch => DeployErrorView::PayloadMismatch,
            DeployError::CellNotFound { name, dep_group } => DeployErrorView::CellNotFound {
                name: name@,
                dep_group: dep_group@,
            },
            DeployError::NoFundingInput => DeployErrorView::NoFundingInput,
            DeployError::FundingOutputNotFound => DeployErrorView::FundingOutputNotFound,
            DeployError::CapacityOverflow => DeployErrorView::CapacityOverflow,
            DeployError::CompletionMismatch => DeployErrorView::CompletionMismatch,
            DeployError::UnexpectedEvent => DeployErrorView::UnexpectedEvent,
            DeployError::WalletFailed => DeployErrorView::WalletFailed,
            DeployError::LedgerFailed => DeployErrorView::LedgerFailed,
            DeployError::MissingTransaction { tx_hash } => DeployErrorView::MissingTransaction {
                tx_hash: tx_hash@,
            },
        }
    }
}

impl DeployError {
    pub fn copy(&self) -> (r: DeployError)
        ensures
            r@ == self@,
    {
        match self {
            DeployError::LockMismatch { name, lock } => DeployError::LockMismatch {
                name: name.clone(),
                lock: lock.copy(),
            },
            DeployError::PayloadMismatch => DeployError::PayloadMismatch,
            DeployError::CellNotFound { name, dep_group } => DeployError::CellNotFound {
                name: name.clone(),
                dep_group: dep_group.clone(),
            },
            DeployError::NoFundingInput => DeployError::NoFundingInput,
            DeployError::FundingOutputNotFound => DeployError::FundingOutputNotFound,
            DeployError::CapacityOverflow => DeployError::CapacityOverflow,
            DeployError::CompletionMismatch => DeployError::CompletionMismatch,
            DeployError::UnexpectedEvent => DeployError::UnexpectedEvent,
            DeployError::WalletFailed => DeployError::WalletFailed,
            DeployError::LedgerFailed => DeployError::LedgerFailed,
            DeployError::MissingTransaction { tx_hash } => DeployError::MissingTransaction {
                tx_hash: *tx_hash,
            },
        }
    }
}

} // verus!
