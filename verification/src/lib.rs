//! Issuance-policy validator for a token-definition cell in a UTXO-style
//! ledger. The validator is a pure decision function over an immutable
//! transaction snapshot: it approves a transaction that creates exactly one
//! new governed cell, referencing an existing UDT cell whose owner signs the
//! transaction, with enough data to carry the token metadata.

mod checks;
mod error;
mod laws;
mod snapshot;
mod validate;

pub use laws::lemma_data_length_decides;
pub use laws::lemma_entry_deterministic;
pub use laws::lemma_group_input_rejected;
pub use laws::lemma_multiple_outputs_rejected;
pub use laws::lemma_not_owner_rejected;
pub use laws::lemma_udt_not_match_rejected;

pub use validate::entry;
pub use validate::spec_entry;
pub use validate::spec_udt_owner_args;
pub use validate::spec_validate;
pub use validate::validate;

pub use checks::DECIMAL_LEN;
pub use checks::SYMBOL_LEN;
pub use checks::bytes_eq;
pub use checks::check_data_length;
pub use checks::check_owner_mode;
pub use checks::count_group_input;
pub use checks::count_group_output;
pub use checks::find_udt_cell_idx;

pub use error::Error;
pub use error::HostError;
pub use snapshot::InputCell;
pub use snapshot::TxSnapshot;
pub use snapshot::TypeScriptInfo;
pub use snapshot::cell_matches_udt;
pub use snapshot::first_udt_index;
pub use snapshot::lemma_first_udt_index_characterizes;
pub use snapshot::lemma_first_udt_index_some;
pub use snapshot::owner_present;
