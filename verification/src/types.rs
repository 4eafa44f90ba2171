//! Plain models of the ledger's data: digests, scripts, cells and
//! transaction records, each with the mathematical view that the contracts
//! of this crate speak of.

use vstd::prelude::*;

verus! {

/// Tells whether two byte strings hold the same bytes.
pub fn bytes_eq(a: &Vec<u8>, b: &Vec<u8>) -> (r: bool)
    ensures
        r == (a@ == b@),
{
    if a.len() != b.len() {
        return false;
    }
    let mut i: usize = 0;
    while i < a.len()
        invariant
            a.len() == b.len(),
            i <= a.len(),
            forall|j: int| 0 <= j < i ==> a@[j] == b@[j],
        decreases a.len() - i,
    {
        if a[i] != b[i] {
            return false;
        }
        i += 1;
    }
    assert(a@ =~= b@);
    true
}

/// A fresh byte string with the bytes of `a`.
pub fn copy_bytes(a: &Vec<u8>) -> (r: Vec<u8>)
    ensures
        r@ == a@,
{
    let mut out: Vec<u8> = Vec::new();
    let mut i: usize = 0;
    while i < a.len()
        invariant
            i <= a.len(),
            out@ == a@.subrange(0, i as int),
        decreases a.len() - i,
    {
        out.push(a[i]);
        i += 1;
    }
    out
}

/// The views of the items of a sequence, in order.
pub open spec fn views<T: View>(s: Seq<T>) -> Seq<T::V> {
    Seq::new(s.len(), |i: int| s[i]@)
}

/// The views of a sequence with one more item are those of the sequence
/// with the view of the item.
pub proof fn lemma_views_push<T: View>(s: Seq<T>, x: T)
    ensures
        views(s.push(x)) == views(s).push(x@),
{
}

/// The views of two sequences joined are the views of each, joined.
pub proof fn lemma_views_add<T: View>(a: Seq<T>, b: Seq<T>)
    ensures
        views(a + b) == views(a) + views(b),
{
}

/// A 256-bit digest: a transaction hash, a data hash or a script hash.
#[derive(Clone, Copy, Debug, PartialEq, Eq)]
pub struct H256 {
    pub bytes: [u8; 32],
}

impl View for H256 {
    type V = Seq<u8>;

    open spec fn view(&self) -> Seq<u8> {
        self.bytes@
    }
}

impl H256 {
    pub fn new(bytes: [u8; 32]) -> (h: H256)
        ensures
            h@ == bytes@,
    {
        H256 { bytes }
    }

    /// The digest made of 32 zero bytes.
    pub fn zero() -> (h: H256)
        ensures
            h@ == Seq::new(32, |i: int| 0u8),
    {
        let h = H256 { bytes: [0u8; 32] };
        h
    }

    pub fn equals(&self, other: &H256) -> (r: bool)
        ensures
            r == (self@ == other@),
    {
        let mut i: usize = 0;
        while i < 32
            invariant
                i <= 32,
                forall|j: int| 0 <= j < i ==> self.bytes@[j] == other.bytes@[j],
            decreases 32 - i,
        {
            if self.bytes[i] != other.bytes[i] {
                return false;
            }
            i += 1;
        }
        assert(self@ =~= other@);
        true
    }

    /// The 32 bytes of the digest as a byte string.
    pub fn to_vec(&self) -> (r: Vec<u8>)
        ensures
            r@ == self@,
    {
        let mut out: Vec<u8> = Vec::new();
        let mut i: usize = 0;
        while i < 32
            invariant
                i <= 32,
                out@ == self@.subrange(0, i as int),
            decreases 32 - i,
        {
            out.push(self.bytes[i]);
            i += 1;
        }
        out
    }
}

/// A script: the code it names, how the code is addressed, and its
/// arguments.
#[derive(Clone, Debug, PartialEq, Eq)]
pub struct Script {
    pub code_hash: H256,
    pub hash_type: u8,
    pub args: Vec<u8>,
}

pub ghost struct ScriptView {
    pub code_hash: Seq<u8>,
    pub hash_type: u8,
    pub args: Seq<u8>,
}

impl View for Script {
    type V = ScriptView;

    open spec fn view(&self) -> ScriptView {
        ScriptView { code_hash: self.code_hash@, hash_type: self.hash_type, args: self.args@ }
    }
}

impl Script {
    pub fn equals(&self, other: &Script) -> (r: bool)
        ensures
            r == (self@ == other@),
    {
        self.code_hash.equals(&other.code_hash) && self.hash_type == other.hash_type && bytes_eq(
            &self.args,
            &other.args,
        )
    }

    pub fn copy(&self) -> (r: Script)
        ensures
            r@ == self@,
    {
        Script {
            code_hash: self.code_hash,
            hash_type: self.hash_type,
            args: copy_bytes(&self.args),
        }
    }
}

/// The view of an optional script.
pub open spec fn script_opt_view(s: Option<Script>) -> Option<ScriptView> {
    match s {
        Some(script) => Some(script@),
        None => None,
    }
}

pub fn script_opt_eq(a: &Option<Script>, b: &Option<Script>) -> (r: bool)
    ensures
        r == (script_opt_view(*a) == script_opt_view(*b)),
{
    match (a, b) {
        (Some(x), Some(y)) => x.equals(y),
        (None, None) => true,
        _ => false,
    }
}

pub fn script_opt_copy(a: &Option<Script>) -> (r: Option<Script>)
    ensures
        script_opt_view(r) == script_opt_view(*a),
{
    match a {
        Some(x) => Some(x.copy()),
        None => None,
    }
}

/// A reference to one output of a transaction.
#[derive(Clone, Copy, Debug, PartialEq, Eq)]
pub struct OutPoint {
    pub tx_hash: H256,
    pub index: u32,
}

pub ghost struct OutPointView {
    pub tx_hash: Seq<u8>,
    pub index: u32,
}

impl View for OutPoint {
    type V = OutPointView;

    open spec fn view(&self) -> OutPointView {
        OutPointView { tx_hash: self.tx_hash@, index: self.index }
    }
}

impl OutPoint {
    pub fn equals(&self, other: &OutPoint) -> (r: bool)
        ensures
            r == (self@ == other@),
    {
        self.tx_hash.equals(&other.tx_hash) && self.index == other.index
    }
}

/// An input of a transaction: the output it spends and its `since` field.
#[derive(Clone, Copy, Debug, PartialEq, Eq)]
pub struct CellInput {
    pub previous_output: OutPoint,
    pub since: u64,
}

pub ghost struct CellInputView {
    pub previous_output: OutPointView,
    pub since: u64,
}

impl View for CellInput {
    type V = CellInputView;

    open spec fn view(&self) -> CellInputView {
        CellInputView { previous_output: self.previous_output@, since: self.since }
    }
}

impl CellInput {
    pub fn equals(&self, other: &CellInput) -> (r: bool)
        ensures
            r == (self@ == other@),
    {
        self.previous_output.equals(&other.previous_output) && self.since == other.since
    }
}

/// An output of a transaction, without its data.
#[derive(Clone, Debug, PartialEq, Eq)]
pub struct CellOutput {
    pub capacity: u64,
    pub lock: Script,
    pub type_: Option<Script>,
}

pub ghost struct CellOutputView {
    pub capacity: u64,
    pub lock: ScriptView,
    pub type_: Option<ScriptView>,
}

impl View for CellOutput {
    type V = CellOutputView;

    open spec fn view(&self) -> CellOutputView {
        CellOutputView {
            capacity: self.capacity,
            lock: self.lock@,
            type_: script_opt_view(self.type_),
        }
    }
}

impl CellOutput {
    pub fn equals(&self, other: &CellOutput) -> (r: bool)
        ensures
            r == (self@ == other@),
    {
        self.capacity == other.capacity && self.lock.equals(&other.lock) && script_opt_eq(
            &self.type_,
            &other.type_,
        )
    }

    pub fn copy(&self) -> (r: CellOutput)
        ensures
            r@ == self@,
    {
        CellOutput {
            capacity: self.capacity,
            lock: self.lock.copy(),
            type_: script_opt_copy(&self.type_),
        }
    }
}

/// An unspent output that may fund a transaction.
#[derive(Clone, Copy, Debug, PartialEq, Eq)]
pub struct LiveCell {
    pub tx_hash: H256,
    pub index: u32,
    pub capacity: u64,
    pub mature: bool,
}

pub ghost struct LiveCellView {
    pub tx_hash: Seq<u8>,
    pub index: u32,
    pub capacity: u64,
    pub mature: bool,
}

impl View for LiveCell {
    type V = LiveCellView;

    open spec fn view(&self) -> LiveCellView {
        LiveCellView {
            tx_hash: self.tx_hash@,
            index: self.index,
            capacity: self.capacity,
            mature: self.mature,
        }
    }
}

impl LiveCellView {
    /// The output that the live cell stands for.
    pub open spec fn out_point(self) -> OutPointView {
        OutPointView { tx_hash: self.tx_hash, index: self.index }
    }

    /// The input that spends the live cell, with `since` zero.
    pub open spec fn input(self) -> CellInputView {
        CellInputView { previous_output: self.out_point(), since: 0 }
    }
}

impl LiveCell {
    pub fn out_point(&self) -> (r: OutPoint)
        ensures
            r@ == self@.out_point(),
    {
        OutPoint { tx_hash: self.tx_hash, index: self.index }
    }

    pub fn input(&self) -> (r: CellInput)
        ensures
            r@ == self@.input(),
    {
        CellInput { previous_output: self.out_point(), since: 0 }
    }
}

/// A transaction as this library reads it: its hash, the inputs it
/// consumes and the outputs it produces, each with its data.
#[derive(Clone, Debug, PartialEq, Eq)]
pub struct TransactionRecord {
    pub hash: H256,
    pub inputs: Vec<CellInput>,
    pub outputs: Vec<CellOutput>,
    pub outputs_data: Vec<Vec<u8>>,
}

pub ghost struct TransactionRecordView {
    pub hash: Seq<u8>,
    pub inputs: Seq<CellInputView>,
    pub outputs: Seq<CellOutputView>,
    pub outputs_data: Seq<Seq<u8>>,
}

impl View for TransactionRecord {
    type V = TransactionRecordView;

    open spec fn view(&self) -> TransactionRecordView {
        TransactionRecordView {
            hash: self.hash@,
            inputs: views(self.inputs@),
            outputs: views(self.outputs@),
            outputs_data: views(self.outputs_data@),
        }
    }
}

impl TransactionRecordView {
    /// Outputs that come with data: an output beyond the data list, or
    /// data beyond the output list, is not read.
    pub open spec fn paired(self) -> nat {
        if self.outputs.len() <= self.outputs_data.len() {
            self.outputs.len()
        } else {
            self.outputs_data.len()
        }
    }
}

/// An unfinished transaction: the inputs chosen for it, its one principal
/// output and that output's data. Funding, change and fee are still to be
/// added by the wallet.
#[derive(Clone, Debug, PartialEq, Eq)]
pub struct TransactionDraft {
    pub inputs: Vec<CellInput>,
    pub output: CellOutput,
    pub output_data: Vec<u8>,
}

pub ghost struct TransactionDraftView {
    pub inputs: Seq<CellInputView>,
    pub output: CellOutputView,
    pub output_data: Seq<u8>,
}

impl View for TransactionDraft {
    type V = TransactionDraftView;

    open spec fn view(&self) -> TransactionDraftView {
        TransactionDraftView {
            inputs: views(self.inputs@),
            output: self.output@,
            output_data: self.output_data@,
        }
    }
}

impl TransactionDraft {
    pub fn copy(&self) -> (r: TransactionDraft)
        ensures
            r@ == self@,
    {
        let mut inputs: Vec<CellInput> = Vec::new();
        let mut i: usize = 0;
        while i < self.inputs.len()
            invariant
                i <= self.inputs.len(),
                inputs@ == self.inputs@.subrange(0, i as int),
            decreases self.inputs.len() - i,
        {
            inputs.push(self.inputs[i]);
            i += 1;
        }
        assert(self.inputs@.subrange(0, self.inputs.len() as int) =~= self.inputs@);
        TransactionDraft {
            inputs,
            output: self.output.copy(),
            output_data: copy_bytes(&self.output_data),
        }
    }
}

} // verus!
