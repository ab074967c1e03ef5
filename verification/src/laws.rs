//! The policy's guarantees, stated and proved over the validation outcome.
//!
//! Each law quantifies over every transaction snapshot that meets its
//! premises; determinism needs no law of its own, since `validate` and
//! `entry` fix their result as a function of the snapshot alone.

use vstd::prelude::*;

use crate::error::Error;
use crate::snapshot::TxSnapshot;
use crate::snapshot::cell_matches_udt;
use crate::snapshot::first_udt_index;
use crate::snapshot::lemma_first_udt_index_characterizes;
use crate::snapshot::owner_present;
use crate::validate::spec_entry;
use crate::validate::spec_udt_owner_args;
use crate::validate::spec_validate;

verus! {

/// A transaction in which the executing script governs at least one input
/// cell is rejected as `CannotUseAsInput`, independent of every other
/// condition.
pub proof fn lemma_group_input_rejected(tx: TxSnapshot)
    requires
        tx.group_input_count >= 1,
    ensures
        spec_validate(tx) == Err::<(), Error>(Error::CannotUseAsInput),
{
}

/// A transaction with no governed input and two or more governed outputs is
/// rejected as `MultipleOutputs`.
pub proof fn lemma_multiple_outputs_rejected(tx: TxSnapshot)
    requires
        tx.group_input_count == 0,
        tx.group_output_data@.len() >= 2,
    ensures
        spec_validate(tx) == Err::<(), Error>(Error::MultipleOutputs),
{
}

/// A transaction with no governed input, exactly one governed output, and
/// no input whose type-script hash equals the executing script's `args` is
/// rejected as `UDTNotMatch`.
pub proof fn lemma_udt_not_match_rejected(tx: TxSnapshot)
    requires
        tx.group_input_count == 0,
        tx.group_output_data@.len() == 1,
        forall|i: int|
            0 <= i < tx.inputs@.len() ==> !cell_matches_udt(tx.inputs@[i], tx.script_args@),
    ensures
        spec_validate(tx) == Err::<(), Error>(Error::UDTNotMatch),
{
    lemma_first_udt_index_characterizes(tx.inputs@, tx.script_args@, tx.inputs@.len() as int);
}

/// Once a UDT input is matched, a transaction in which no input's
/// lock-script hash equals that UDT's `args` is rejected as `NotOwner`.
pub proof fn lemma_not_owner_rejected(tx: TxSnapshot)
    requires
        tx.group_input_count == 0,
        tx.group_output_data@.len() == 1,
        first_udt_index(tx.inputs@, tx.script_args@) is Some,
        forall|j: int|
            0 <= j < tx.inputs@.len() ==> tx.inputs@[j].lock_hash@ != spec_udt_owner_args(tx),
    ensures
        spec_validate(tx) == Err::<(), Error>(Error::NotOwner),
{
    assert(!owner_present(tx.inputs@, spec_udt_owner_args(tx))) by {
        if owner_present(tx.inputs@, spec_udt_owner_args(tx)) {
            let k = choose|k: int|
                0 <= k < tx.inputs@.len() && tx.inputs@[k].lock_hash@ == spec_udt_owner_args(tx);
            assert(tx.inputs@[k].lock_hash@ != spec_udt_owner_args(tx));
        }
    }
}

/// Evaluating the same immutable transaction snapshot twice yields the same
/// status code both times: `entry` fixes its result as `spec_entry` of its
/// snapshot, and that is one value per snapshot.
pub proof fn lemma_entry_deterministic(tx1: TxSnapshot, tx2: TxSnapshot)
    requires
        tx1 == tx2,
    ensures
        spec_entry(tx1) == spec_entry(tx2),
        spec_validate(tx1) == spec_validate(tx2),
{
}

/// Once every earlier check passes, the data length of the sole governed
/// output alone decides the outcome: nine bytes or fewer are rejected as
/// `DataLengthNotEnough`, ten or more succeed.
pub proof fn lemma_data_length_decides(tx: TxSnapshot)
    requires
        tx.group_input_count == 0,
        tx.group_output_data@.len() == 1,
        first_udt_index(tx.inputs@, tx.script_args@) is Some,
        owner_present(tx.inputs@, spec_udt_owner_args(tx)),
    ensures
        spec_validate(tx) == Err::<(), Error>(Error::DataLengthNotEnough) <==> tx.group_output_data@[0]@.len() <= 9,
        spec_validate(tx) == Ok::<(), Error>(()) <==> tx.group_output_data@[0]@.len() >= 10,
{
}

} // verus!
