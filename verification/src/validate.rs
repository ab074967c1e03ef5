//! The orchestrator: sequences the checks over one transaction snapshot,
//! short-circuits on the first failure, and returns the terminal outcome.

use vstd::prelude::*;

use crate::checks::DECIMAL_LEN;
use crate::checks::SYMBOL_LEN;
use crate::checks::check_data_length;
use crate::checks::check_owner_mode;
use crate::checks::count_group_input;
use crate::checks::count_group_output;
use crate::checks::find_udt_cell_idx;
use crate::error::Error;
use crate::snapshot::TxSnapshot;
use crate::snapshot::first_udt_index;
use crate::snapshot::lemma_first_udt_index_some;
use crate::snapshot::owner_present;

verus! {

/// The type-script `args` of the first input whose type-script hash equals
/// the executing script's `args`: the 32-byte lock hash designating the
/// token's owner. Meaningful only when such an input exists.
pub open spec fn spec_udt_owner_args(tx: TxSnapshot) -> Seq<u8> {
    let i = first_udt_index(tx.inputs@, tx.script_args@)->Some_0;
    tx.inputs@[i].type_script->Some_0.args@
}

/// The outcome of validating one transaction snapshot, in the pipeline's
/// short-circuit order: a governed input rejects the transaction outright;
/// then exactly one governed output is required; then an input carrying the
/// configured UDT type script; then an input controlled by that UDT's owner;
/// then enough data in the sole governed output.
pub open spec fn spec_validate(tx: TxSnapshot) -> Result<(), Error> {
    if tx.group_input_count != 0 {
        Err(Error::CannotUseAsInput)
    } else if tx.group_output_data@.len() != 1 {
        Err(Error::MultipleOutputs)
    } else if first_udt_index(tx.inputs@, tx.script_args@) is None {
        Err(Error::UDTNotMatch)
    } else if !owner_present(tx.inputs@, spec_udt_owner_args(tx)) {
        Err(Error::NotOwner)
    } else if tx.group_output_data@[0]@.len() <= SYMBOL_LEN + DECIMAL_LEN {
        Err(Error::DataLengthNotEnough)
    } else {
        Ok(())
    }
}

/// The signed 8-bit status code of one validation run: 0 on success, the
/// failure's code otherwise.
pub open spec fn spec_entry(tx: TxSnapshot) -> i8 {
    match spec_validate(tx) {
        Ok(_) => 0,
        Err(e) => e.spec_code(),
    }
}

/// Validates one transaction snapshot. The one transaction shape outside
/// this function's domain: no governed input and no governed output either,
/// on which the pipeline's group-output inspection dereferences absent data
/// and aborts instead of returning.
pub fn validate(tx: &TxSnapshot) -> (r: Result<(), Error>)
    requires
        tx.group_input_count == 0 ==> tx.group_output_data@.len() >= 1,
    ensures
        r == spec_validate(*tx),
{
    if !count_group_input(tx) {
        return Err(Error::CannotUseAsInput);
    }
    let (group_output_is_ok, group_output_data) = count_group_output(tx);

    if !group_output_is_ok {
        return Err(Error::MultipleOutputs);
    }
    let udt_cell_idx = match find_udt_cell_idx(&tx.inputs, &tx.script_args) {
        Some(idx) => idx,
        None => {
            return Err(Error::UDTNotMatch);
        },
    };
    proof {
        lemma_first_udt_index_some(tx.inputs@, tx.script_args@);
    }
    let udt_args = match &tx.inputs[udt_cell_idx].type_script {
        Some(ts) => &ts.args,
        None => {
            // Unreachable: a matched input carries a type script.
            return Err(Error::UDTNotMatch);
        },
    };
    if !check_owner_mode(&tx.inputs, udt_args) {
        return Err(Error::NotOwner);
    }
    if !check_data_length(group_output_data) {
        return Err(Error::DataLengthNotEnough);
    }
    Ok(())
}

/// Runs one validation and reports its status code: 0 on success, the
/// failure's code otherwise.
pub fn entry(tx: &TxSnapshot) -> (r: i8)
    requires
        tx.group_input_count == 0 ==> tx.group_output_data@.len() >= 1,
    ensures
        r == spec_entry(*tx),
{
    match validate(tx) {
        Ok(_) => 0,
        Err(err) => err.code(),
    }
}

} // verus!
