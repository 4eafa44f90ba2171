//! Building and replaying a chained batch of transactions that deploy cells
//! and dependency groups, with the manifest that names what was deployed.
//!
//! A deployment declares cells and dependency groups ([`config`]). The
//! recipe builder ([`builder`]) builds one transaction for each of them, in
//! order, and lets each transaction spend the change of the one before it
//! ([`change`]); a cell that keeps its identity over redeployments gets a
//! type-id script ([`type_id`]), and a dependency group is deployed as the
//! list of the out-points of its cells ([`dep_group`]). What was deployed
//! is written down in the manifest ([`recipe`]), and the executor
//! ([`executor`]) sends the signed transactions in the order in which they
//! were built.
//!
//! The library never talks to a wallet or a ledger. The builder and the
//! executor say what is to be done next and take the outcome as an event;
//! the caller does what they ask. What holds of every run and of every
//! replay is stated and proved in [`invariants`] and [`replay`]. The
//! ledger's own encodings and digests come from the `ckb-testtool` crates
//! ([`ledger`]).

pub mod builder;
pub mod change;
pub mod config;
pub mod dep_group;
pub mod error;
pub mod executor;
pub mod invariants;
pub mod ledger;
pub mod lookup;
pub mod process;
pub mod recipe;
pub mod replay;
pub mod transaction;
pub mod type_id;
pub mod types;
