//! The identity of an upgradable cell: a type script that is derived once,
//! from the first input of the transaction that creates the cell, and kept
//! by every later deployment of it.

use crate::ledger::{
    blake2b_256, cell_input_bytes, encode_cell_input, hash_bytes, hash_type_type, script_hash_of,
    type_hash_type, type_id_code_hash, type_id_code_hash_bytes,
};
use crate::types::{CellInput, CellInputView, CellOutput, CellOutputView, Script, ScriptView};
use vstd::bytes::{spec_u64_to_le_bytes, u64_to_le_bytes};
use vstd::prelude::*;

verus! {

/// A script is a type-id script when its code hash is the ledger's mark for
/// type ids and its code is addressed by type.
pub open spec fn is_type_id(s: ScriptView) -> bool {
    s.code_hash == type_id_code_hash_bytes() && s.hash_type == hash_type_type()
}

/// The argument of a fresh type-id script: the digest of the first input's
/// bytes followed by the output's index in little-endian order.
pub open spec fn type_id_args(input: CellInputView, output_index: u64) -> Seq<u8> {
    blake2b_256(cell_input_bytes(input) + spec_u64_to_le_bytes(output_index))
}

/// The fresh type-id script for an output at `output_index` of a
/// transaction whose first input is `input`.
pub open spec fn type_id_script(input: CellInputView, output_index: u64) -> ScriptView {
    ScriptView {
        code_hash: type_id_code_hash_bytes(),
        hash_type: hash_type_type(),
        args: type_id_args(input, output_index),
    }
}

/// The type-id script that an existing output hands on, if it has one.
pub open spec fn inherited_type_id(existing: CellOutputView) -> Option<ScriptView> {
    match existing.type_ {
        Some(s) => if is_type_id(s) {
            Some(s)
        } else {
            None
        },
        None => None,
    }
}

/// The type script of a redeployed cell: the one that the output spent by
/// the first input carries, or else a fresh one derived from that input for
/// the output at index 0.
pub open spec fn selected_type_id(
    existing: CellOutputView,
    first_input: CellInputView,
) -> ScriptView {
    match inherited_type_id(existing) {
        Some(s) => s,
        None => type_id_script(first_input, 0),
    }
}

/// Appends the bytes of `src` to `dst`.
pub fn append_bytes(dst: &mut Vec<u8>, src: &Vec<u8>)
    ensures
        final(dst)@ == old(dst)@ + src@,
{
    let mut i: usize = 0;
    while i < src.len()
        invariant
            i <= src.len(),
            dst@ == old(dst)@ + src@.subrange(0, i as int),
        decreases src.len() - i,
    {
        dst.push(src[i]);
        i += 1;
    }
}

pub fn is_type_id_script(script: &Script) -> (r: bool)
    ensures
        r == is_type_id(script@),
{
    let code_hash = type_id_code_hash();
    script.code_hash.equals(&code_hash) && script.hash_type == type_hash_type()
}

/// Derives the type-id script of the output at `output_index` from the
/// first input of its transaction.
pub fn build_type_id_script(input: &CellInput, output_index: u64) -> (r: Script)
    ensures
        r@ == type_id_script(input@, output_index),
        r@.args.len() == 32,
{
    let mut preimage = encode_cell_input(input);
    let index_bytes = u64_to_le_bytes(output_index);
    append_bytes(&mut preimage, &index_bytes);
    let digest = hash_bytes(&preimage);
    Script { code_hash: type_id_code_hash(), hash_type: type_hash_type(), args: digest.to_vec() }
}

/// The type-id script that `existing` carries, unchanged, if it carries
/// one.
pub fn inherit_type_id(existing: &CellOutput) -> (r: Option<Script>)
    ensures
        crate::types::script_opt_view(r) == inherited_type_id(existing@),
{
    match &existing.type_ {
        Some(script) => {
            if is_type_id_script(script) {
                Some(script.copy())
            } else {
                None
            }
        },
        None => None,
    }
}

/// Chooses the type script of a cell that keeps its identity: the one
/// inherited from `existing`, the output that `first_input` spends, or a
/// fresh one derived from `first_input`.
pub fn select_type_id(existing: &CellOutput, first_input: &CellInput) -> (r: Script)
    ensures
        r@ == selected_type_id(existing@, first_input@),
{
    match inherit_type_id(existing) {
        Some(script) => script,
        None => build_type_id_script(first_input, 0),
    }
}

/// Deriving is deterministic: the same first input and the same output
/// index give the same type-id script, and so the same type-id hash.
pub proof fn lemma_derive_deterministic(a: CellInput, b: CellInput, index_a: u64, index_b: u64)
    requires
        a@ == b@,
        index_a == index_b,
    ensures
        type_id_script(a@, index_a) == type_id_script(b@, index_b),
        script_hash_of(type_id_script(a@, index_a)) == script_hash_of(type_id_script(b@, index_b)),
{
}

/// An output that carries a type-id script hands it on unchanged, whatever
/// the first input is: the type-id hash of the redeployed cell is the one
/// it had.
pub proof fn lemma_inherit_keeps_identity(existing: CellOutputView, first_input: CellInputView)
    requires
        existing.type_ is Some,
        is_type_id(existing.type_->0),
    ensures
        selected_type_id(existing, first_input) == existing.type_->0,
        script_hash_of(selected_type_id(existing, first_input)) == script_hash_of(
            existing.type_->0,
        ),
{
}

/// What is selected is always a type-id script.
pub proof fn lemma_selected_is_type_id(existing: CellOutputView, first_input: CellInputView)
    ensures
        is_type_id(selected_type_id(existing, first_input)),
{
}

} // verus!
