//! Finding the first item of a list that bears a given name.

use crate::config::{Cell, CellView, PreInput, PreInputView};
use crate::recipe::{CellRecipe, CellRecipeView};
use crate::types::views;
use vstd::prelude::*;

verus! {

/// The least index of an item of `s` that satisfies `p`, if there is one.
pub open spec fn first_index<T>(s: Seq<T>, p: spec_fn(T) -> bool) -> Option<int>
    decreases s.len(),
{
    if s.len() == 0 {
        None
    } else {
        match first_index(s.drop_last(), p) {
            Some(i) => Some(i),
            None => if p(s.last()) {
                Some(s.len() - 1)
            } else {
                None
            },
        }
    }
}

/// `first_index` is the least index whose item satisfies the predicate,
/// and is absent exactly when no item satisfies it.
pub proof fn lemma_first_index<T>(s: Seq<T>, p: spec_fn(T) -> bool)
    ensures
        match first_index(s, p) {
            Some(i) => 0 <= i < s.len() && p(s[i]) && forall|j: int| 0 <= j < i ==> !p(s[j]),
            None => forall|j: int| 0 <= j < s.len() ==> !p(s[j]),
        },
    decreases s.len(),
{
    if s.len() > 0 {
        lemma_first_index(s.drop_last(), p);
        assert(forall|j: int| 0 <= j < s.len() - 1 ==> s.drop_last()[j] == s[j]);
    }
}

/// An index is `first_index` when its item satisfies the predicate and no
/// item before it does.
pub proof fn lemma_first_index_is<T>(s: Seq<T>, p: spec_fn(T) -> bool, i: int)
    requires
        0 <= i < s.len(),
        p(s[i]),
        forall|j: int| 0 <= j < i ==> !p(s[j]),
    ensures
        first_index(s, p) == Some(i),
{
    lemma_first_index(s, p);
}

/// `first_index` is absent when no item satisfies the predicate.
pub proof fn lemma_first_index_none<T>(s: Seq<T>, p: spec_fn(T) -> bool)
    requires
        forall|j: int| 0 <= j < s.len() ==> !p(s[j]),
    ensures
        first_index(s, p) is None,
{
    lemma_first_index(s, p);
}

/// The cells of the given name.
pub open spec fn cell_named(name: Seq<char>) -> spec_fn(CellView) -> bool {
    |c: CellView| c.name == name
}

/// The recipes of the given name.
pub open spec fn recipe_named(name: Seq<char>) -> spec_fn(CellRecipeView) -> bool {
    |r: CellRecipeView| r.name == name
}

/// The pre-selected inputs of the given name.
pub open spec fn pre_input_named(name: Seq<char>) -> spec_fn(PreInputView) -> bool {
    |p: PreInputView| p.name == name
}

/// An index as a mathematical integer.
pub open spec fn index_view(i: Option<usize>) -> Option<int> {
    match i {
        Some(k) => Some(k as int),
        None => None,
    }
}

/// The position of the first cell of that name.
pub fn find_cell(cells: &Vec<Cell>, name: &String) -> (r: Option<usize>)
    ensures
        index_view(r) == first_index(views(cells@), cell_named(name@)),
        r is Some ==> r->0 < cells.len(),
{
    let mut i: usize = 0;
    while i < cells.len()
        invariant
            i <= cells.len(),
            forall|j: int| 0 <= j < i ==> !cell_named(name@)(#[trigger] views(cells@)[j]),
        decreases cells.len() - i,
    {
        if cells[i].name == *name {
            proof {
                lemma_first_index_is(views(cells@), cell_named(name@), i as int);
            }
            return Some(i);
        }
        i += 1;
    }
    proof {
        lemma_first_index_none(views(cells@), cell_named(name@));
    }
    None
}

/// The position of the first recipe of that name.
pub fn find_recipe(recipes: &Vec<CellRecipe>, name: &String) -> (r: Option<usize>)
    ensures
        index_view(r) == first_index(views(recipes@), recipe_named(name@)),
        r is Some ==> r->0 < recipes.len(),
{
    let mut i: usize = 0;
    while i < recipes.len()
        invariant
            i <= recipes.len(),
            forall|j: int| 0 <= j < i ==> !recipe_named(name@)(#[trigger] views(recipes@)[j]),
        decreases recipes.len() - i,
    {
        if recipes[i].name == *name {
            proof {
                lemma_first_index_is(views(recipes@), recipe_named(name@), i as int);
            }
            return Some(i);
        }
        i += 1;
    }
    proof {
        lemma_first_index_none(views(recipes@), recipe_named(name@));
    }
    None
}

/// The position of the first pre-selected input of that name.
pub fn find_pre_input(pre_inputs: &Vec<PreInput>, name: &String) -> (r: Option<usize>)
    ensures
        index_view(r) == first_index(views(pre_inputs@), pre_input_named(name@)),
        r is Some ==> r->0 < pre_inputs.len(),
{
    let mut i: usize = 0;
    while i < pre_inputs.len()
        invariant
            i <= pre_inputs.len(),
            forall|j: int|
                0 <= j < i ==> !pre_input_named(name@)(#[trigger] views(pre_inputs@)[j]),
        decreases pre_inputs.len() - i,
    {
        if pre_inputs[i].name == *name {
            proof {
                lemma_first_index_is(views(pre_inputs@), pre_input_named(name@), i as int);
            }
            return Some(i);
        }
        i += 1;
    }
    proof {
        lemma_first_index_none(views(pre_inputs@), pre_input_named(name@));
    }
    None
}

} // verus!
