//! The ledger's own encodings, digests and capacity rules, taken from the
//! `ckb-testtool` crates. Every executable function here is believed, not
//! proved: its contract restates what the outside code does.

use ckb_testtool::ckb_chain_spec::consensus::TYPE_ID_CODE_HASH;
use ckb_testtool::ckb_types::packed;
use ckb_testtool::ckb_types::prelude::{Builder, Entity, PackVec, Unpack};
use crate::types::{
    script_opt_view, views, CellInput, CellInputView, H256, OutPoint, OutPointView, Script,
    ScriptView,
};
use vstd::bytes::{spec_u32_to_le_bytes, spec_u64_to_le_bytes};
use vstd::prelude::*;

verus! {

/// Shannons, the smallest unit of capacity, that one byte of storage costs.
pub const BYTE_SHANNONS: u64 = 100_000_000;

/// The digest that `ckb_hash::blake2b_256` gives for a byte string.
pub uninterp spec fn blake2b_256(data: Seq<u8>) -> Seq<u8>;

/// The four little-endian bytes of a length, cut to 32 bits as the ledger's
/// serialization cuts it.
pub open spec fn le32(n: nat) -> Seq<u8> {
    spec_u32_to_le_bytes((n % 0x1_0000_0000) as u32)
}

/// The 36 bytes of an out-point: the transaction hash, then the index in
/// little-endian order.
pub open spec fn out_point_bytes(p: OutPointView) -> Seq<u8> {
    p.tx_hash + spec_u32_to_le_bytes(p.index)
}

/// The 44 bytes of an input: `since` in little-endian order, then the
/// out-point it spends.
pub open spec fn cell_input_bytes(input: CellInputView) -> Seq<u8> {
    spec_u64_to_le_bytes(input.since) + out_point_bytes(input.previous_output)
}

/// The bytes of a script: a table of three fields, headed by its full size
/// and the offset of each field; the arguments carry their own length.
pub open spec fn script_bytes(s: ScriptView) -> Seq<u8> {
    le32(53 + s.args.len()) + le32(16) + le32(48) + le32(49) + s.code_hash + seq![s.hash_type]
        + le32(s.args.len()) + s.args
}

/// The bytes of a list of out-points: the number of items, then the items
/// in order, 36 bytes each.
pub open spec fn out_points_bytes(points: Seq<OutPointView>) -> Seq<u8> {
    le32(points.len()) + Seq::new(
        36 * points.len(),
        |i: int| out_point_bytes(points[i / 36])[i % 36],
    )
}

/// The code hash that marks a type-id script: 25 zero bytes, then the
/// letters `TYPE_ID`.
pub open spec fn type_id_code_hash_bytes() -> Seq<u8> {
    seq![
        0u8, 0u8, 0u8, 0u8, 0u8, 0u8, 0u8, 0u8, 0u8, 0u8, 0u8, 0u8, 0u8, 0u8, 0u8, 0u8, 0u8, 0u8,
        0u8, 0u8, 0u8, 0u8, 0u8, 0u8, 0u8, 0x54u8, 0x59u8, 0x50u8, 0x45u8, 0x5fu8, 0x49u8, 0x44u8,
    ]
}

/// The hash type of a script whose code is found by its type script's hash.
pub open spec fn hash_type_type() -> u8 {
    1
}

/// The digest of a cell's data: zero for no data, else its hash.
pub open spec fn data_hash_of(data: Seq<u8>) -> Seq<u8> {
    if data.len() == 0 {
        Seq::new(32, |i: int| 0u8)
    } else {
        blake2b_256(data)
    }
}

/// The digest of a script: the hash of its bytes.
pub open spec fn script_hash_of(s: ScriptView) -> Seq<u8> {
    blake2b_256(script_bytes(s))
}

/// Bytes that a script occupies: its code hash, its hash type and its
/// arguments.
pub open spec fn script_occupied_bytes(s: ScriptView) -> nat {
    s.args.len() + 33
}

/// Bytes that an output occupies with `data_len` bytes of data: eight for
/// the capacity field, the data, the lock and the type script if any.
pub open spec fn occupied_bytes(lock: ScriptView, type_: Option<ScriptView>, data_len: nat) -> nat {
    8 + data_len + script_occupied_bytes(lock) + match type_ {
        Some(t) => script_occupied_bytes(t),
        None => 0,
    }
}

/// The least capacity, in shannons, that such an output must lock.
pub open spec fn occupied_shannons(
    lock: ScriptView,
    type_: Option<ScriptView>,
    data_len: nat,
) -> nat {
    occupied_bytes(lock, type_, data_len) * (BYTE_SHANNONS as nat)
}

/// Calls `ckb_hash::blake2b_256`. Claims only that the digest is a function
/// of the bytes hashed.
#[verifier::external_body]
pub(crate) fn hash_bytes(data: &Vec<u8>) -> (digest: H256)
    ensures
        digest@ == blake2b_256(data@),
{
    H256 { bytes: ckb_testtool::ckb_hash::blake2b_256(data) }
}

/// Builds a `packed::CellInput` and returns `as_slice()` of it. Claims that
/// the bytes are `since`, the transaction hash and the index, the numbers in
/// little-endian order.
#[verifier::external_body]
pub(crate) fn encode_cell_input(input: &CellInput) -> (bytes: Vec<u8>)
    ensures
        bytes@ == cell_input_bytes(input@),
{
    let tx_hash = packed::Byte32::new(input.previous_output.tx_hash.bytes);
    let out_point = packed::OutPoint::new(tx_hash, input.previous_output.index);
    packed::CellInput::new(out_point, input.since).as_slice().to_vec()
}

/// Reads `ckb_chain_spec::consensus::TYPE_ID_CODE_HASH`. Claims the 32 bytes
/// of that constant.
#[verifier::external_body]
pub(crate) fn type_id_code_hash() -> (hash: H256)
    ensures
        hash@ == type_id_code_hash_bytes(),
{
    H256 { bytes: TYPE_ID_CODE_HASH.0 }
}

/// Converts `ScriptHashType::Type` to its byte. Claims that the byte is 1.
#[verifier::external_body]
pub(crate) fn type_hash_type() -> (byte: u8)
    ensures
        byte == hash_type_type(),
{
    ckb_testtool::ckb_types::core::ScriptHashType::Type.into()
}

/// Calls `Capacity::bytes` and `packed::CellOutput::occupied_capacity`.
/// Claims that the result is the occupied bytes times the price of a byte,
/// and that it is absent exactly when that product does not fit in 64 bits.
#[verifier::external_body]
pub(crate) fn occupied_capacity(lock: &Script, type_: &Option<Script>, data_len: usize) -> (r:
    Option<u64>)
    ensures
        r == if occupied_shannons(lock@, script_opt_view(*type_), data_len as nat) <= u64::MAX {
            Some(occupied_shannons(lock@, script_opt_view(*type_), data_len as nat) as u64)
        } else {
            None
        },
{
    let pack = |s: &Script| {
        packed::Script::new_builder()
            .code_hash(packed::Byte32::new(s.code_hash.bytes))
            .hash_type(s.hash_type)
            .args(&s.args[..])
            .build()
    };
    let type_ = type_.as_ref().map(pack);
    let output = packed::CellOutput::new_builder().lock(pack(lock)).type_(type_).build();
    let data_capacity = ckb_testtool::ckb_types::core::Capacity::bytes(data_len).ok()?;
    output.occupied_capacity(data_capacity).ok().map(|c| c.as_u64())
}

/// Builds a `packed::Script` and calls `calc_script_hash` on it. Claims that
/// the digest is the hash of the script's bytes.
#[verifier::external_body]
pub(crate) fn script_hash(script: &Script) -> (digest: H256)
    ensures
        digest@ == script_hash_of(script@),
{
    let packed_script = packed::Script::new_builder()
        .code_hash(packed::Byte32::new(script.code_hash.bytes))
        .hash_type(script.hash_type)
        .args(&script.args[..])
        .build();
    H256 { bytes: packed_script.calc_script_hash().unpack() }
}

/// Calls `packed::CellOutput::calc_data_hash`. Claims that the digest is
/// zero for empty data and the hash of the data otherwise.
#[verifier::external_body]
pub(crate) fn data_hash(data: &Vec<u8>) -> (digest: H256)
    ensures
        digest@ == data_hash_of(data@),
{
    H256 { bytes: packed::CellOutput::calc_data_hash(data).unpack() }
}

/// Packs the out-points into a `packed::OutPointVec` and returns
/// `as_bytes()` of it. Claims that the bytes are the number of out-points
/// and then each out-point in order.
#[verifier::external_body]
pub(crate) fn encode_out_points(points: &Vec<OutPoint>) -> (bytes: Vec<u8>)
    ensures
        bytes@ == out_points_bytes(views(points@)),
{
    let packed_points: Vec<packed::OutPoint> = points
        .iter()
        .map(|p| packed::OutPoint::new(packed::Byte32::new(p.tx_hash.bytes), p.index))
        .collect();
    packed_points.pack().as_bytes().to_vec()
}

} // verus!
