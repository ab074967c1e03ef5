//! The validator's individual checks: group-input emptiness, group-output
//! shape, UDT lookup, owner presence, and data length.

use vstd::prelude::*;

use crate::snapshot::InputCell;
use crate::snapshot::TxSnapshot;
use crate::snapshot::cell_matches_udt;
use crate::snapshot::first_udt_index;
use crate::snapshot::lemma_first_udt_index_characterizes;
use crate::snapshot::owner_present;

verus! {

/// Bytes reserved in a governed cell's data for the token symbol.
pub const SYMBOL_LEN: usize = 8;

/// Bytes reserved in a governed cell's data for the decimal count.
pub const DECIMAL_LEN: usize = 1;

/// Byte-for-byte equality of two byte strings.
pub fn bytes_eq(a: &Vec<u8>, b: &Vec<u8>) -> (r: bool)
    ensures
        r == (a@ == b@),
{
    if a.len() != b.len() {
        return false;
    }
    let mut i: usize = 0;
    while i < a.len()
        invariant
            i <= a@.len(),
            a@.len() == b@.len(),
            forall|j: int| 0 <= j < i ==> a@[j] == b@[j],
        decreases a@.len() - i,
    {
        if a[i] != b[i] {
            return false;
        }
        i = i + 1;
    }
    proof {
        assert(a@ =~= b@);
    }
    true
}

/// Whether the executing script governs no input cell. The policy only
/// allows creating a governed cell, never consuming one.
pub fn count_group_input(tx: &TxSnapshot) -> (r: bool)
    ensures
        r == (tx.group_input_count == 0),
{
    tx.group_input_count == 0
}

/// Inspects the outputs governed by the executing script: whether there is
/// exactly one, and the byte length of the first one's data. A transaction
/// with no governed output at all is outside this check's domain: the
/// pipeline dereferences the first governed output's data unconditionally.
pub fn count_group_output(tx: &TxSnapshot) -> (r: (bool, usize))
    requires
        tx.group_output_data@.len() >= 1,
    ensures
        r.0 == (tx.group_output_data@.len() == 1),
        r.1 == tx.group_output_data@[0]@.len(),
{
    let exactly_one = tx.group_output_data.len() == 1;
    let first_data_len = tx.group_output_data[0].len();
    (exactly_one, first_data_len)
}

/// The index of the first input whose type-script hash equals `target`
/// (an input without a type script never matches), or `None` when no
/// input matches.
pub fn find_udt_cell_idx(inputs: &Vec<InputCell>, target: &Vec<u8>) -> (r: Option<usize>)
    ensures
        (match r {
            Some(idx) => first_udt_index(inputs@, target@) == Some(idx as int),
            None => first_udt_index(inputs@, target@) is None,
        }),
{
    let mut i: usize = 0;
    while i < inputs.len()
        invariant
            i <= inputs@.len(),
            forall|j: int| 0 <= j < i ==> !cell_matches_udt(inputs@[j], target@),
        decreases inputs@.len() - i,
    {
        let matched = match &inputs[i].type_script {
            Some(ts) => bytes_eq(&ts.hash, target),
            None => false,
        };
        if matched {
            proof {
                lemma_first_udt_index_characterizes(inputs@, target@, i as int);
            }
            return Some(i);
        }
        i = i + 1;
    }
    proof {
        lemma_first_udt_index_characterizes(inputs@, target@, inputs@.len() as int);
    }
    None
}

/// Whether some input cell's lock-script hash equals `owner`: the token's
/// designated owner controls at least one consumed cell.
pub fn check_owner_mode(inputs: &Vec<InputCell>, owner: &Vec<u8>) -> (r: bool)
    ensures
        r == owner_present(inputs@, owner@),
{
    let mut i: usize = 0;
    while i < inputs.len()
        invariant
            i <= inputs@.len(),
            forall|j: int| 0 <= j < i ==> inputs@[j].lock_hash@ != owner@,
        decreases inputs@.len() - i,
    {
        if bytes_eq(&inputs[i].lock_hash, owner) {
            assert(owner_present(inputs@, owner@)) by {
                assert(inputs@[i as int].lock_hash@ == owner@);
            }
            return true;
        }
        i = i + 1;
    }
    false
}

/// Whether a governed output's data is long enough to carry the token
/// symbol and the decimal count.
pub fn check_data_length(group_output_data: usize) -> (r: bool)
    ensures
        r == (group_output_data > SYMBOL_LEN + DECIMAL_LEN),
{
    group_output_data > SYMBOL_LEN + DECIMAL_LEN
}

} // verus!
