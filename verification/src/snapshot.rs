//! The immutable transaction snapshot the validator decides over, and the
//! specification-level predicates on it.
//!
//! The host supplies the snapshot as plain values: the executing script's
//! `args`, every transaction input (its lock-script hash and, when the cell
//! carries a type script, that script's hash and `args`), the number of
//! inputs governed by the executing script, and the data bytes of every
//! output governed by it.

use vstd::prelude::*;

verus! {

/// What the validator reads of a cell's type script: the script's 32-byte
/// hash as computed by the host, and the script's raw `args` bytes.
#[derive(Clone)]
pub struct TypeScriptInfo {
    pub hash: Vec<u8>,
    pub args: Vec<u8>,
}

/// What the validator reads of one transaction input cell.
#[derive(Clone)]
pub struct InputCell {
    /// Hash of the cell's lock script, as computed by the host.
    pub lock_hash: Vec<u8>,
    /// The cell's type script, absent when the cell carries none.
    pub type_script: Option<TypeScriptInfo>,
}

/// A read-only view of the enclosing transaction. The group fields are the
/// host-filtered views restricted to cells whose type script equals the
/// currently executing script.
pub struct TxSnapshot {
    /// The executing script's `args`: expected to be the 32-byte hash of a
    /// UDT type script (not defensively checked).
    pub script_args: Vec<u8>,
    /// Every input cell of the transaction, in transaction order.
    pub inputs: Vec<InputCell>,
    /// How many input cells are governed by the executing script.
    pub group_input_count: usize,
    /// The data bytes of each output governed by the executing script,
    /// in transaction order.
    pub group_output_data: Vec<Vec<u8>>,
}

/// Whether an input cell's type-script hash equals `target`. A cell without
/// a type script never matches.
pub open spec fn cell_matches_udt(c: InputCell, target: Seq<u8>) -> bool {
    c.type_script matches Some(ts) && ts.hash@ == target
}

/// The index of the first input whose type-script hash equals `target`, or
/// `None` when no input matches. First-match order matters: the matched
/// cell's type-script `args` designate the token's owner.
pub open spec fn first_udt_index(inputs: Seq<InputCell>, target: Seq<u8>) -> Option<int>
    decreases inputs.len(),
{
    if inputs.len() == 0 {
        None
    } else if cell_matches_udt(inputs[0], target) {
        Some(0int)
    } else {
        match first_udt_index(inputs.drop_first(), target) {
            Some(i) => Some(i + 1),
            None => None,
        }
    }
}

/// Whether some input cell's lock-script hash equals `owner`.
pub open spec fn owner_present(inputs: Seq<InputCell>, owner: Seq<u8>) -> bool {
    exists|i: int| 0 <= i < inputs.len() && inputs[i].lock_hash@ == owner
}

/// `first_udt_index` returns exactly the least matching index: if no index
/// below `i` matches and `i` matches, the result is `i`; if no index at all
/// matches (`i` is the length), the result is `None`.
pub proof fn lemma_first_udt_index_characterizes(inputs: Seq<InputCell>, target: Seq<u8>, i: int)
    requires
        0 <= i <= inputs.len(),
        forall|j: int| 0 <= j < i ==> !cell_matches_udt(inputs[j], target),
    ensures
        i < inputs.len() && cell_matches_udt(inputs[i], target) ==> first_udt_index(
            inputs,
            target,
        ) == Some(i),
        i == inputs.len() ==> first_udt_index(inputs, target) is None,
    decreases inputs.len(),
{
    if inputs.len() > 0 && i > 0 {
        assert(!cell_matches_udt(inputs[0], target));
        assert(forall|j: int| 0 <= j < i - 1 ==> inputs.drop_first()[j] == inputs[j + 1]);
        lemma_first_udt_index_characterizes(inputs.drop_first(), target, i - 1);
    }
}

/// A `Some` result of `first_udt_index` is a matching index, and the least
/// one.
pub proof fn lemma_first_udt_index_some(inputs: Seq<InputCell>, target: Seq<u8>)
    requires
        first_udt_index(inputs, target) is Some,
    ensures
        ({
            let i = first_udt_index(inputs, target)->Some_0;
            &&& 0 <= i < inputs.len()
            &&& cell_matches_udt(inputs[i], target)
            &&& forall|j: int| 0 <= j < i ==> !cell_matches_udt(inputs[j], target)
        }),
    decreases inputs.len(),
{
    if inputs.len() > 0 && !cell_matches_udt(inputs[0], target) {
        lemma_first_udt_index_some(inputs.drop_first(), target);
        let fi = first_udt_index(inputs, target)->Some_0;
        let fr = first_udt_index(inputs.drop_first(), target)->Some_0;
        assert(fi == fr + 1);
        assert(inputs.drop_first()[fr] == inputs[fi]);
        assert forall|j: int| 0 <= j < fi implies !cell_matches_udt(inputs[j], target) by {
            if j > 0 {
                assert(inputs.drop_first()[j - 1] == inputs[j]);
                assert(!cell_matches_udt(inputs.drop_first()[j - 1], target));
            }
        }
    }
}

} // verus!
