//! What a run is asked to deploy: cells, dependency groups and the lock
//! that guards them.

use crate::types::{
    copy_bytes, views, LiveCell, LiveCellView, OutPointView, Script, ScriptView, H256,
};
use vstd::prelude::*;

verus! {

/// Where the content of a cell comes from.
#[derive(Clone, Debug, PartialEq, Eq)]
pub enum CellLocation {
    /// A local file, deployed by this run.
    File { file: String },
    /// An output that is on the ledger already.
    OutPoint { tx_hash: H256, index: u32 },
}

pub ghost enum CellLocationView {
    File { file: Seq<char> },
    OutPoint { tx_hash: Seq<u8>, index: u32 },
}

impl View for CellLocation {
    type V = CellLocationView;

    open spec fn view(&self) -> CellLocationView {
        match *self {
            CellLocation::File { file } => CellLocationView::File { file: file@ },
            CellLocation::OutPoint { tx_hash, index } => CellLocationView::OutPoint {
                tx_hash: tx_hash@,
                index,
            },
        }
    }
}

impl CellLocation {
    pub fn copy(&self) -> (r: CellLocation)
        ensures
            r@ == self@,
    {
        match self {
            CellLocation::File { file } => CellLocation::File { file: file.clone() },
            CellLocation::OutPoint { tx_hash, index } => CellLocation::OutPoint {
                tx_hash: *tx_hash,
                index: *index,
            },
        }
    }
}

/// One cell to deploy, or to refer to.
#[derive(Clone, Debug, PartialEq, Eq)]
pub struct Cell {
    /// Unique within a batch.
    pub name: String,
    pub location: CellLocation,
    /// Whether the cell keeps one identity over its redeployments.
    pub enable_type_id: bool,
}

pub ghost struct CellView {
    pub name: Seq<char>,
    pub location: CellLocationView,
    pub enable_type_id: bool,
}

impl View for Cell {
    type V = CellView;

    open spec fn view(&self) -> CellView {
        CellView {
            name: self.name@,
            location: self.location@,
            enable_type_id: self.enable_type_id,
        }
    }
}

impl Cell {
    pub fn copy(&self) -> (r: Cell)
        ensures
            r@ == self@,
    {
        Cell {
            name: self.name.clone(),
            location: self.location.copy(),
            enable_type_id: self.enable_type_id,
        }
    }
}

/// A named bundle of references to cells. The order of the names is the
/// order of the references.
#[derive(Clone, Debug, PartialEq, Eq)]
pub struct DepGroup {
    pub name: String,
    pub cells: Vec<String>,
}

pub ghost struct DepGroupView {
    pub name: Seq<char>,
    pub cells: Seq<Seq<char>>,
}

impl View for DepGroup {
    type V = DepGroupView;

    open spec fn view(&self) -> DepGroupView {
        DepGroupView { name: self.name@, cells: views(self.cells@) }
    }
}

impl DepGroup {
    pub fn copy(&self) -> (r: DepGroup)
        ensures
            r@ == self@,
    {
        let mut cells: Vec<String> = Vec::new();
        let mut i: usize = 0;
        while i < self.cells.len()
            invariant
                i <= self.cells.len(),
                cells.len() == i,
                forall|j: int| 0 <= j < i ==> (#[trigger] cells@[j])@ == self.cells@[j]@,
            decreases self.cells.len() - i,
        {
            cells.push(self.cells[i].clone());
            i += 1;
        }
        assert(views(cells@) =~= views(self.cells@));
        DepGroup { name: self.name.clone(), cells }
    }
}

/// A fresh list with the same cells.
pub fn copy_cells(cells: &Vec<Cell>) -> (r: Vec<Cell>)
    ensures
        views(r@) == views(cells@),
{
    let mut out: Vec<Cell> = Vec::new();
    let mut i: usize = 0;
    while i < cells.len()
        invariant
            i <= cells.len(),
            out.len() == i,
            forall|j: int| 0 <= j < i ==> (#[trigger] out@[j])@ == cells@[j]@,
        decreases cells.len() - i,
    {
        out.push(cells[i].copy());
        i += 1;
    }
    out
}

/// A fresh list with the same dependency groups.
pub fn copy_dep_groups(groups: &Vec<DepGroup>) -> (r: Vec<DepGroup>)
    ensures
        views(r@) == views(groups@),
{
    let mut out: Vec<DepGroup> = Vec::new();
    let mut i: usize = 0;
    while i < groups.len()
        invariant
            i <= groups.len(),
            out.len() == i,
            forall|j: int| 0 <= j < i ==> (#[trigger] out@[j])@ == groups@[j]@,
        decreases groups.len() - i,
    {
        out.push(groups[i].copy());
        i += 1;
    }
    out
}

/// A whole deployment: the lock of the deployer, the cells and the
/// dependency groups, each list in the order of its declaration.
#[derive(Clone, Debug, PartialEq, Eq)]
pub struct Deployment {
    /// The deployer's lock: it guards the output of every cell and of
    /// every dependency group that is deployed.
    pub lock: Script,
    pub cells: Vec<Cell>,
    pub dep_groups: Vec<DepGroup>,
}

pub ghost struct DeploymentView {
    pub lock: ScriptView,
    pub cells: Seq<CellView>,
    pub dep_groups: Seq<DepGroupView>,
}

impl View for Deployment {
    type V = DeploymentView;

    open spec fn view(&self) -> DeploymentView {
        DeploymentView {
            lock: self.lock@,
            cells: views(self.cells@),
            dep_groups: views(self.dep_groups@),
        }
    }
}

/// A cell that this run deploys, with the bytes to deploy.
#[derive(Clone, Debug, PartialEq, Eq)]
pub struct CellPayload {
    pub cell: Cell,
    pub data: Vec<u8>,
}

pub ghost struct CellPayloadView {
    pub cell: CellView,
    pub data: Seq<u8>,
}

impl View for CellPayload {
    type V = CellPayloadView;

    open spec fn view(&self) -> CellPayloadView {
        CellPayloadView { cell: self.cell@, data: self.data@ }
    }
}

/// A live cell that the caller has chosen beforehand as an input of the
/// transaction that deploys the artifact of that name.
#[derive(Clone, Debug, PartialEq, Eq)]
pub struct PreInput {
    pub name: String,
    pub cell: LiveCell,
    /// The lock that guards the live cell on the ledger.
    pub lock: Script,
}

pub ghost struct PreInputView {
    pub name: Seq<char>,
    pub cell: LiveCellView,
    pub lock: ScriptView,
}

impl View for PreInput {
    type V = PreInputView;

    open spec fn view(&self) -> PreInputView {
        PreInputView { name: self.name@, cell: self.cell@, lock: self.lock@ }
    }
}

/// The cells to deploy, each with its data: the cells that come from a
/// file, in the order of their declaration, and the payloads in the same
/// order.
pub open spec fn payloads_of(cells: Seq<CellView>, data: Seq<Seq<u8>>) -> Seq<CellPayloadView> {
    Seq::new(
        deployable(cells).len(),
        |i: int| CellPayloadView { cell: deployable(cells)[i], data: data[i] },
    )
}

/// Pairs the cells that come from a file with their payloads. There is
/// nothing to pair unless there is one payload for each such cell.
pub fn pair_payloads(cells: &Vec<Cell>, data: &Vec<Vec<u8>>) -> (r: Option<Vec<CellPayload>>)
    ensures
        match r {
            Some(payloads) => data.len() == deployable(views(cells@)).len() && views(payloads@)
                == payloads_of(views(cells@), views(data@)),
            None => data.len() != deployable(views(cells@)).len(),
        },
{
    let picked = deployable_cells(cells);
    if picked.len() != data.len() {
        return None;
    }
    let mut out: Vec<CellPayload> = Vec::new();
    let mut i: usize = 0;
    while i < picked.len()
        invariant
            i <= picked.len(),
            picked.len() == data.len(),
            out.len() == i,
            forall|j: int|
                0 <= j < i ==> (#[trigger] out@[j])@ == (CellPayloadView {
                    cell: picked@[j]@,
                    data: data@[j]@,
                }),
        decreases picked.len() - i,
    {
        out.push(CellPayload { cell: picked[i].copy(), data: copy_bytes(&data[i]) });
        i += 1;
    }
    assert(views(out@) =~= payloads_of(views(cells@), views(data@)));
    Some(out)
}

/// The out-point that a location names, if it names one.
pub open spec fn located_out_point(location: CellLocationView) -> Option<OutPointView> {
    match location {
        CellLocationView::File { .. } => None,
        CellLocationView::OutPoint { tx_hash, index } => Some(OutPointView { tx_hash, index }),
    }
}

/// The cells whose content is a local file.
pub open spec fn from_file() -> spec_fn(CellView) -> bool {
    |c: CellView| c.location is File
}

/// The cells that are deployed from a file, in the order of `cells`.
pub open spec fn deployable(cells: Seq<CellView>) -> Seq<CellView> {
    cells.filter(from_file())
}

/// Picks the cells that this run has to deploy: those whose content is a
/// local file. A cell that is on the ledger already is left out.
pub fn deployable_cells(cells: &Vec<Cell>) -> (r: Vec<Cell>)
    ensures
        views(r@) == deployable(views(cells@)),
{
    let mut out: Vec<Cell> = Vec::new();
    let mut i: usize = 0;
    proof {
        reveal(Seq::filter);
    }
    while i < cells.len()
        invariant
            i <= cells.len(),
            views(out@) == deployable(views(cells@).subrange(0, i as int)),
        decreases cells.len() - i,
    {
        let ghost before = views(cells@).subrange(0, i as int);
        match &cells[i].location {
            CellLocation::File { .. } => {
                out.push(cells[i].copy());
            },
            CellLocation::OutPoint { .. } => {},
        }
        proof {
            let next = views(cells@).subrange(0, i + 1);
            assert(next.drop_last() =~= before);
            reveal(Seq::filter);
        }
        i += 1;
    }
    proof {
        assert(views(cells@).subrange(0, cells.len() as int) =~= views(cells@));
    }
    out
}

} // verus!
