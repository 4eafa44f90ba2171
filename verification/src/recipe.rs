//! The manifest of a deployment: for each artifact its name, where it was
//! deployed and what identifies it.

use crate::types::{views, H256};
use vstd::prelude::*;

verus! {

/// The view of an optional digest.
pub open spec fn hash_opt_view(h: Option<H256>) -> Option<Seq<u8>> {
    match h {
        Some(hash) => Some(hash@),
        None => None,
    }
}

/// The record of one deployed cell.
#[derive(Clone, Debug, PartialEq, Eq)]
pub struct CellRecipe {
    pub name: String,
    pub tx_hash: H256,
    /// The artifact is the first output of its transaction.
    pub index: u32,
    pub occupied_capacity: u64,
    pub data_hash: H256,
    /// The hash of the type script, for a cell that keeps its identity.
    pub type_id: Option<H256>,
}

pub ghost struct CellRecipeView {
    pub name: Seq<char>,
    pub tx_hash: Seq<u8>,
    pub index: u32,
    pub occupied_capacity: u64,
    pub data_hash: Seq<u8>,
    pub type_id: Option<Seq<u8>>,
}

impl View for CellRecipe {
    type V = CellRecipeView;

    open spec fn view(&self) -> CellRecipeView {
        CellRecipeView {
            name: self.name@,
            tx_hash: self.tx_hash@,
            index: self.index,
            occupied_capacity: self.occupied_capacity,
            data_hash: self.data_hash@,
            type_id: hash_opt_view(self.type_id),
        }
    }
}

/// The record of one deployed dependency group.
#[derive(Clone, Debug, PartialEq, Eq)]
pub struct DepGroupRecipe {
    pub name: String,
    pub tx_hash: H256,
    pub index: u32,
    pub occupied_capacity: u64,
}

pub ghost struct DepGroupRecipeView {
    pub name: Seq<char>,
    pub tx_hash: Seq<u8>,
    pub index: u32,
    pub occupied_capacity: u64,
}

impl View for DepGroupRecipe {
    type V = DepGroupRecipeView;

    open spec fn view(&self) -> DepGroupRecipeView {
        DepGroupRecipeView {
            name: self.name@,
            tx_hash: self.tx_hash@,
            index: self.index,
            occupied_capacity: self.occupied_capacity,
        }
    }
}

/// The manifest: the cells, then the dependency groups, each list in the
/// order in which the artifacts were built.
#[derive(Clone, Debug, PartialEq, Eq)]
pub struct DeploymentRecipe {
    pub cell_recipes: Vec<CellRecipe>,
    pub dep_group_recipes: Vec<DepGroupRecipe>,
}

pub ghost struct DeploymentRecipeView {
    pub cell_recipes: Seq<CellRecipeView>,
    pub dep_group_recipes: Seq<DepGroupRecipeView>,
}

impl View for DeploymentRecipe {
    type V = DeploymentRecipeView;

    open spec fn view(&self) -> DeploymentRecipeView {
        DeploymentRecipeView {
            cell_recipes: views(self.cell_recipes@),
            dep_group_recipes: views(self.dep_group_recipes@),
        }
    }
}

} // verus!
