use basic_file_byte_operations::{edit_bytes, EditError, EditOp};

#[test]
fn test_replace_single_byte_basic() {
    let test_data = vec![0x00, 0x11, 0x22, 0x33, 0x44];
    let result = edit_bytes(&test_data, 2, EditOp::Replace(0xFF));
    assert!(result.is_ok(), "Operation should succeed");
    assert_eq!(result.unwrap(), vec![0x00, 0x11, 0xFF, 0x33, 0x44]);
}

#[test]
fn test_replace_byte_position_out_of_bounds() {
    let result = edit_bytes(&[0x00, 0x11], 10, EditOp::Replace(0xFF));
    assert!(result.is_err(), "Should fail with out of bounds position");
    assert_eq!(result, Err(EditError::InvalidInput));
}

#[test]
fn test_replace_byte_empty_file() {
    let result = edit_bytes(&[], 0, EditOp::Replace(0xFF));
    assert!(result.is_err(), "Should fail with empty file");
    assert_eq!(result, Err(EditError::InvalidInput));
}

#[test]
fn test_remove_single_byte_basic() {
    let test_data = vec![0x00, 0x11, 0x22, 0x33, 0x44];
    let result = edit_bytes(&test_data, 2, EditOp::Remove);
    assert!(result.is_ok(), "Operation should succeed");
    assert_eq!(result.unwrap(), vec![0x00, 0x11, 0x33, 0x44]);
}

#[test]
fn test_remove_first_byte() {
    let result = edit_bytes(&[0xAA, 0xBB, 0xCC], 0, EditOp::Remove);
    assert!(result.is_ok());
    assert_eq!(result.unwrap(), vec![0xBB, 0xCC]);
}

#[test]
fn test_remove_last_byte() {
    let result = edit_bytes(&[0xAA, 0xBB, 0xCC], 2, EditOp::Remove);
    assert!(result.is_ok());
    assert_eq!(result.unwrap(), vec![0xAA, 0xBB]);
}

#[test]
fn test_remove_from_single_byte_file() {
    let result = edit_bytes(&[0x42], 0, EditOp::Remove);
    assert!(result.is_ok());
    assert_eq!(result.unwrap(), Vec::<u8>::new());
}

#[test]
fn test_remove_byte_out_of_bounds() {
    let result = edit_bytes(&[0x00, 0x11], 10, EditOp::Remove);
    assert!(result.is_err(), "Should fail with out of bounds position");
    assert_eq!(result, Err(EditError::InvalidInput));
}

#[test]
fn test_remove_from_empty_file() {
    let result = edit_bytes(&[], 0, EditOp::Remove);
    assert!(result.is_err(), "Should fail with empty file");
    assert_eq!(result, Err(EditError::InvalidInput));
}

#[test]
fn position_equal_to_length_is_refused() {
    let data = vec![1u8, 2, 3];
    assert_eq!(edit_bytes(&data, 3, EditOp::Replace(9)), Err(EditError::InvalidInput));
    assert_eq!(edit_bytes(&data, 3, EditOp::Remove), Err(EditError::InvalidInput));
}

#[test]
fn replace_twice_is_idempotent() {
    let data = vec![0x00, 0x11, 0x22, 0x33, 0x44];
    let once = edit_bytes(&data, 1, EditOp::Replace(0x7E)).unwrap();
    let twice = edit_bytes(&once, 1, EditOp::Replace(0x7E)).unwrap();
    assert_eq!(once, vec![0x00, 0x7E, 0x22, 0x33, 0x44]);
    assert_eq!(twice, once);
}

#[test]
fn replace_with_same_value_succeeds() {
    let data = vec![0x10, 0x20, 0x30];
    assert_eq!(edit_bytes(&data, 1, EditOp::Replace(0x20)), Ok(data.clone()));
}

fn pattern(len: usize) -> Vec<u8> {
    (0..len).map(|i| (i * 7 + 3) as u8).collect()
}

#[test]
fn replace_across_chunk_boundaries() {
    let data = pattern(200);
    for &p in &[0usize, 63, 64, 65, 127, 128, 199] {
        let out = edit_bytes(&data, p, EditOp::Replace(0xEE)).unwrap();
        let mut expected = data.clone();
        expected[p] = 0xEE;
        assert_eq!(out, expected, "offset {}", p);
    }
}

#[test]
fn remove_across_chunk_boundaries() {
    let data = pattern(200);
    for &p in &[0usize, 63, 64, 65, 127, 128, 199] {
        let out = edit_bytes(&data, p, EditOp::Remove).unwrap();
        let mut expected = data.clone();
        expected.remove(p);
        assert_eq!(out, expected, "offset {}", p);
    }
}

#[test]
fn remove_from_exact_chunk_sized_input() {
    let data = pattern(64);
    let out = edit_bytes(&data, 63, EditOp::Remove).unwrap();
    assert_eq!(out, data[..63].to_vec());
}
