//! Dependency groups: resolving the names of a group to out-points, and
//! the byte form in which a group is deployed.

use crate::config::{Cell, CellLocation, CellLocationView, CellView, DepGroup, DepGroupView};
use crate::error::{DeployError, DeployErrorView};
use crate::ledger::{le32, out_point_bytes, out_points_bytes};
use crate::lookup::{
    cell_named, find_cell, find_recipe, first_index, lemma_first_index_is, lemma_first_index_none,
    recipe_named,
};
use crate::recipe::{CellRecipe, CellRecipeView};
use crate::types::{views, OutPoint, OutPointView, H256};
use vstd::bytes::{
    lemma_auto_spec_u32_to_from_le_bytes, spec_u32_from_le_bytes, spec_u32_to_le_bytes,
    u32_from_le_bytes,
};
use vstd::prelude::*;
use vstd::slice::slice_subrange;

verus! {

/// The out-point at which a recipe says its cell was deployed.
pub open spec fn recipe_out_point(r: CellRecipeView) -> OutPointView {
    OutPointView { tx_hash: r.tx_hash, index: r.index }
}

/// The out-point that a cell name stands for. The name must be declared. A
/// cell that is on the ledger already stands for its declared out-point; a
/// cell deployed from a file stands for the out-point in its recipe, and
/// for nothing while it has no recipe.
pub open spec fn resolve_name(
    cells: Seq<CellView>,
    recipes: Seq<CellRecipeView>,
    name: Seq<char>,
) -> Option<OutPointView> {
    match first_index(cells, cell_named(name)) {
        None => None,
        Some(i) => match cells[i].location {
            CellLocationView::OutPoint { tx_hash, index } => Some(OutPointView { tx_hash, index }),
            CellLocationView::File { .. } => match first_index(recipes, recipe_named(name)) {
                Some(k) => Some(recipe_out_point(recipes[k])),
                None => None,
            },
        },
    }
}

/// The names that stand for nothing.
pub open spec fn unresolved(cells: Seq<CellView>, recipes: Seq<CellRecipeView>) -> spec_fn(
    Seq<char>,
) -> bool {
    |name: Seq<char>| resolve_name(cells, recipes, name) is None
}

/// The out-points of a dependency group: one for each of its names, in the
/// order of the names. The first name that stands for nothing is reported.
pub open spec fn resolve_all(
    cells: Seq<CellView>,
    recipes: Seq<CellRecipeView>,
    dep_group: DepGroupView,
) -> Result<Seq<OutPointView>, DeployErrorView> {
    match first_index(dep_group.cells, unresolved(cells, recipes)) {
        Some(i) => Err(
            DeployErrorView::CellNotFound { name: dep_group.cells[i], dep_group: dep_group.name },
        ),
        None => Ok(
            Seq::new(
                dep_group.cells.len(),
                |i: int| resolve_name(cells, recipes, dep_group.cells[i])->0,
            ),
        ),
    }
}

/// The view of an optional out-point.
pub open spec fn out_point_opt_view(p: Option<OutPoint>) -> Option<OutPointView> {
    match p {
        Some(point) => Some(point@),
        None => None,
    }
}

/// Resolves one cell name to the out-point it stands for.
pub fn resolve_out_point(cells: &Vec<Cell>, recipes: &Vec<CellRecipe>, name: &String) -> (r: Option<
    OutPoint,
>)
    ensures
        out_point_opt_view(r) == resolve_name(views(cells@), views(recipes@), name@),
{
    match find_cell(cells, name) {
        None => None,
        Some(i) => match &cells[i].location {
            CellLocation::OutPoint { tx_hash, index } => Some(
                OutPoint { tx_hash: *tx_hash, index: *index },
            ),
            CellLocation::File { .. } => match find_recipe(recipes, name) {
                Some(k) => Some(OutPoint { tx_hash: recipes[k].tx_hash, index: recipes[k].index }),
                None => None,
            },
        },
    }
}

/// Resolves the names of a dependency group, in order. Fails on the first
/// name that is not declared or, for a cell deployed from a file, not yet
/// deployed.
pub fn resolve_out_points(
    dep_group: &DepGroup,
    cells: &Vec<Cell>,
    recipes: &Vec<CellRecipe>,
) -> (r: Result<Vec<OutPoint>, DeployError>)
    ensures
        match r {
            Ok(points) => resolve_all(views(cells@), views(recipes@), dep_group@) == Ok::<
                Seq<OutPointView>,
                DeployErrorView,
            >(views(points@)),
            Err(e) => resolve_all(views(cells@), views(recipes@), dep_group@) == Err::<
                Seq<OutPointView>,
                DeployErrorView,
            >(e@),
        },
{
    let ghost cs = views(cells@);
    let ghost rs = views(recipes@);
    let ghost names = dep_group@.cells;
    let mut points: Vec<OutPoint> = Vec::new();
    let mut i: usize = 0;
    while i < dep_group.cells.len()
        invariant
            i <= dep_group.cells.len(),
            cs == views(cells@),
            rs == views(recipes@),
            names == dep_group@.cells,
            names.len() == dep_group.cells.len(),
            points.len() == i,
            forall|j: int| 0 <= j < i ==> !unresolved(cs, rs)(#[trigger] names[j]),
            forall|j: int|
                0 <= j < i ==> (#[trigger] points@[j])@ == resolve_name(cs, rs, names[j])->0,
        decreases dep_group.cells.len() - i,
    {
        let name = &dep_group.cells[i];
        match resolve_out_point(cells, recipes, name) {
            Some(point) => {
                points.push(point);
            },
            None => {
                proof {
                    lemma_first_index_is(names, unresolved(cs, rs), i as int);
                }
                return Err(
                    DeployError::CellNotFound {
                        name: name.clone(),
                        dep_group: dep_group.name.clone(),
                    },
                );
            },
        }
        i += 1;
    }
    proof {
        lemma_first_index_none(names, unresolved(cs, rs));
        assert(views(points@) =~= Seq::new(
            names.len(),
            |k: int| resolve_name(cs, rs, names[k])->0,
        ));
    }
    Ok(points)
}

/// The out-point that 36 bytes spell.
pub open spec fn decode_out_point(bytes: Seq<u8>) -> OutPointView {
    OutPointView {
        tx_hash: bytes.subrange(0, 32),
        index: spec_u32_from_le_bytes(bytes.subrange(32, 36)),
    }
}

/// The list of out-points that a byte string spells, if it spells one: a
/// count in four bytes, then exactly that many out-points of 36 bytes.
pub open spec fn decode_out_points(bytes: Seq<u8>) -> Option<Seq<OutPointView>> {
    if bytes.len() < 4 {
        None
    } else {
        let n = spec_u32_from_le_bytes(bytes.subrange(0, 4)) as nat;
        if bytes.len() != 4 + 36 * n {
            None
        } else {
            Some(Seq::new(n, |i: int| decode_out_point(bytes.subrange(4 + 36 * i, 40 + 36 * i))))
        }
    }
}

/// Reading back the bytes of an out-point gives the out-point.
pub proof fn lemma_out_point_round_trip(p: OutPointView)
    requires
        p.tx_hash.len() == 32,
    ensures
        out_point_bytes(p).len() == 36,
        decode_out_point(out_point_bytes(p)) == p,
{
    lemma_auto_spec_u32_to_from_le_bytes();
    let bytes = out_point_bytes(p);
    assert(bytes.subrange(0, 32) =~= p.tx_hash);
    assert(bytes.subrange(32, 36) =~= spec_u32_to_le_bytes(p.index));
}

/// A list of out-points round-trips: decoding its bytes gives the same
/// out-points, as many and in the same order. The count is stored in 32
/// bits, so the list is to have no more items than that can say; a
/// transaction hash has 32 bytes.
pub proof fn lemma_out_points_round_trip(points: Seq<OutPointView>)
    requires
        points.len() <= u32::MAX,
        forall|i: int| 0 <= i < points.len() ==> (#[trigger] points[i]).tx_hash.len() == 32,
    ensures
        decode_out_points(out_points_bytes(points)) == Some(points),
{
    lemma_auto_spec_u32_to_from_le_bytes();
    let n = points.len();
    let bytes = out_points_bytes(points);
    assert(bytes.subrange(0, 4) =~= le32(n));
    let decoded = Seq::new(n, |i: int| decode_out_point(bytes.subrange(4 + 36 * i, 40 + 36 * i)));
    assert forall|i: int| 0 <= i < n implies decoded[i] == points[i] by {
        lemma_out_point_round_trip(points[i]);
        let item = bytes.subrange(4 + 36 * i, 40 + 36 * i);
        assert forall|t: int| 0 <= t < 36 implies item[t] == out_point_bytes(points[i])[t] by {
            let k = 36 * i + t;
        }
        assert(item =~= out_point_bytes(points[i]));
    }
}

/// Reads a list of out-points back from its bytes.
pub fn read_out_points(data: &Vec<u8>) -> (r: Option<Vec<OutPoint>>)
    ensures
        match r {
            Some(points) => decode_out_points(data@) == Some(views(points@)),
            None => decode_out_points(data@) is None,
        },
{
    if data.len() < 4 {
        return None;
    }
    let count: u32 = u32_from_le_bytes(slice_subrange(data.as_slice(), 0, 4));
    let n: usize = count as usize;
    if (data.len() - 4) % 36 != 0 || (data.len() - 4) / 36 != n {
        return None;
    }
    let mut points: Vec<OutPoint> = Vec::new();
    let mut i: usize = 0;
    while i < n
        invariant
            i <= n,
            data.len() == 4 + 36 * n,
            points.len() == i,
            forall|j: int|
                0 <= j < i ==> (#[trigger] points@[j])@ == decode_out_point(
                    data@.subrange(4 + 36 * j, 40 + 36 * j),
                ),
        decreases n - i,
    {
        let start: usize = 4 + 36 * i;
        let ghost item = data@.subrange(4 + 36 * i, 40 + 36 * i);
        let mut hash: [u8; 32] = [0u8; 32];
        let mut t: usize = 0;
        while t < 32
            invariant
                t <= 32,
                start == 4 + 36 * i,
                i < n,
                data.len() == 4 + 36 * n,
                item == data@.subrange(4 + 36 * i, 40 + 36 * i),
                forall|u: int| 0 <= u < t ==> hash@[u] == item[u],
            decreases 32 - t,
        {
            hash[t] = data[start + t];
            t += 1;
        }
        let index: u32 = u32_from_le_bytes(slice_subrange(data.as_slice(), start + 32, start + 36));
        let point = OutPoint { tx_hash: H256 { bytes: hash }, index };
        proof {
            assert(hash@ =~= item.subrange(0, 32));
            assert(data@.subrange(start + 32, start + 36) =~= item.subrange(32, 36));
        }
        points.push(point);
        i += 1;
    }
    proof {
        assert(views(points@) =~= Seq::new(
            n as nat,
            |k: int| decode_out_point(data@.subrange(4 + 36 * k, 40 + 36 * k)),
        ));
    }
    Some(points)
}

} // verus!
