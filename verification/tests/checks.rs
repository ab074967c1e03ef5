//! Unit runs of the individual checks, the status codes, and the mapping
//! from host failures.

use hackathon::DECIMAL_LEN;
use hackathon::Error;
use hackathon::HostError;
use hackathon::InputCell;
use hackathon::SYMBOL_LEN;
use hackathon::TxSnapshot;
use hackathon::TypeScriptInfo;
use hackathon::bytes_eq;
use hackathon::check_data_length;
use hackathon::check_owner_mode;
use hackathon::count_group_input;
use hackathon::count_group_output;
use hackathon::find_udt_cell_idx;

fn cell(lock: &[u8], type_script: Option<(&[u8], &[u8])>) -> InputCell {
    InputCell {
        lock_hash: lock.to_vec(),
        type_script: type_script.map(|(hash, args)| TypeScriptInfo {
            hash: hash.to_vec(),
            args: args.to_vec(),
        }),
    }
}

#[test]
fn test_bytes_eq() {
    assert!(bytes_eq(&vec![1u8, 2, 3], &vec![1u8, 2, 3]));
    assert!(!bytes_eq(&vec![1u8, 2, 3], &vec![1u8, 2, 4]));
    assert!(!bytes_eq(&vec![1u8, 2], &vec![1u8, 2, 3]));
    assert!(bytes_eq(&vec![], &vec![]));
}

#[test]
fn test_error_codes() {
    assert_eq!(Error::IndexOutOfBound.code(), 1);
    assert_eq!(Error::ItemMissing.code(), 2);
    assert_eq!(Error::LengthNotEnough.code(), 3);
    assert_eq!(Error::Encoding.code(), 4);
    assert_eq!(Error::UDTNotMatch.code(), 5);
    assert_eq!(Error::NotOwner.code(), 6);
    assert_eq!(Error::CannotUseAsInput.code(), 7);
    assert_eq!(Error::MultipleOutputs.code(), 8);
    assert_eq!(Error::DataLengthNotEnough.code(), 9);
}

#[test]
fn test_from_host_maps_each_recognized_failure() {
    assert_eq!(Error::from_host(HostError::IndexOutOfBound), Error::IndexOutOfBound);
    assert_eq!(Error::from_host(HostError::ItemMissing), Error::ItemMissing);
    assert_eq!(Error::from_host(HostError::LengthNotEnough(5)), Error::LengthNotEnough);
    assert_eq!(Error::from_host(HostError::Encoding), Error::Encoding);
}

#[test]
fn test_count_group_input_checks_emptiness() {
    let mut tx = TxSnapshot {
        script_args: vec![0u8; 32],
        inputs: vec![],
        group_input_count: 0,
        group_output_data: vec![vec![0u8; 10]],
    };
    assert!(count_group_input(&tx));
    tx.group_input_count = 2;
    assert!(!count_group_input(&tx));
}

#[test]
fn test_count_group_output_shape() {
    let mut tx = TxSnapshot {
        script_args: vec![0u8; 32],
        inputs: vec![],
        group_input_count: 0,
        group_output_data: vec![vec![0u8; 12]],
    };
    assert_eq!(count_group_output(&tx), (true, 12));
    tx.group_output_data.push(vec![0u8; 3]);
    assert_eq!(count_group_output(&tx), (false, 12));
}

#[test]
fn test_find_udt_cell_idx_first_match() {
    let target = vec![0xBBu8; 32];
    let other = vec![0xDDu8; 32];
    let inputs = vec![
        cell(&[0xAA; 32], None),
        cell(&[0xAA; 32], Some((&other, &[0x01; 32]))),
        cell(&[0xAA; 32], Some((&target, &[0x02; 32]))),
        cell(&[0xAA; 32], Some((&target, &[0x03; 32]))),
    ];
    assert_eq!(find_udt_cell_idx(&inputs, &target), Some(2));
    assert_eq!(find_udt_cell_idx(&inputs, &vec![0xEEu8; 32]), None);
    assert_eq!(find_udt_cell_idx(&vec![], &target), None);
}

#[test]
fn test_check_owner_mode_scans_locks() {
    let owner = vec![0x55u8; 32];
    let inputs = vec![cell(&[0x44; 32], None), cell(&[0x55; 32], None)];
    assert!(check_owner_mode(&inputs, &owner));
    assert!(!check_owner_mode(&inputs, &vec![0x66u8; 32]));
    assert!(!check_owner_mode(&vec![], &owner));
}

#[test]
fn test_check_data_length_boundary() {
    assert_eq!(SYMBOL_LEN + DECIMAL_LEN, 9);
    assert!(!check_data_length(0));
    assert!(!check_data_length(9));
    assert!(check_data_length(10));
    assert!(check_data_length(usize::MAX));
}
