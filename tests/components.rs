use basic_file_byte_operations::{
    compute_simple_checksum, validate_target, verify_edit, DraftBuilder, EditError, EditOp,
    IntegrityVerifier, CHUNK_CAPACITY, MAX_CHUNKS,
};

#[test]
fn checksum_of_empty_window_is_zero() {
    assert_eq!(compute_simple_checksum(&[]), 0);
}

#[test]
fn checksum_exact_values() {
    // index 0: 1 rotated by 0, plus 1
    assert_eq!(compute_simple_checksum(&[1]), 2);
    // 2 + (1 rotated by 1 = 2, plus 1)
    assert_eq!(compute_simple_checksum(&[1, 1]), 5);
    assert_eq!(compute_simple_checksum(&[0x80, 0x01]), 0x103);
}

#[test]
fn checksum_detects_transposition() {
    assert_eq!(compute_simple_checksum(&[1, 2]), 8);
    assert_eq!(compute_simple_checksum(&[2, 1]), 7);
}

#[test]
fn checksum_rotation_wraps_around() {
    // 0x02 at index 63 rotates to bit 0: term is 1 + 2.
    let mut window = vec![0u8; 63];
    window.push(0x02);
    assert_eq!(compute_simple_checksum(&window), 3);
    // at index 64 the rotation starts over: term is 1 + 1.
    let mut window = vec![0u8; 64];
    window.push(0x01);
    assert_eq!(compute_simple_checksum(&window), 2);
}

#[test]
fn checksum_sums_with_wraparound() {
    let window = vec![0xFFu8; 64];
    let mut expected: u64 = 0;
    for i in 0..64u32 {
        expected = expected.wrapping_add(0xFFu64.rotate_left(i).wrapping_add(0xFF));
    }
    assert_eq!(compute_simple_checksum(&window), expected);
}

#[test]
fn validate_target_outcomes() {
    assert_eq!(validate_target(false, false, 0, 0), Err(EditError::NotFound));
    assert_eq!(validate_target(true, false, 10, 0), Err(EditError::InvalidInput));
    assert_eq!(validate_target(true, true, 0, 0), Err(EditError::InvalidInput));
    assert_eq!(validate_target(true, true, 5, 5), Err(EditError::InvalidInput));
    assert_eq!(validate_target(true, true, 5, 6), Err(EditError::InvalidInput));
    assert_eq!(validate_target(true, true, 5, 4), Ok(()));
    assert_eq!(validate_target(true, true, 1, 0), Ok(()));
}

#[test]
fn builder_streams_chunks_with_remove() {
    let mut builder = DraftBuilder::new(EditOp::Remove, 3);
    let first = builder.next_chunk(&[10, 11]).unwrap();
    let second = builder.next_chunk(&[12, 13, 14]).unwrap();
    let end = builder.next_chunk(&[]).unwrap();
    assert_eq!(first, vec![10, 11]);
    assert_eq!(second, vec![12, 14]);
    assert!(end.is_empty());
    assert_eq!(builder.finish(), Ok(13));
}

#[test]
fn builder_streams_chunks_with_replace() {
    let mut builder = DraftBuilder::new(EditOp::Replace(0x99), 0);
    assert_eq!(builder.next_chunk(&[1, 2, 3]).unwrap(), vec![0x99, 2, 3]);
    assert_eq!(builder.next_chunk(&[4]).unwrap(), vec![4]);
    assert_eq!(builder.finish(), Ok(1));
}

#[test]
fn builder_refuses_oversized_chunk() {
    let mut builder = DraftBuilder::new(EditOp::Remove, 0);
    let chunk = vec![0u8; CHUNK_CAPACITY + 1];
    assert_eq!(builder.next_chunk(&chunk), Err(EditError::IntegrityFailure));
    assert_eq!(builder.next_chunk(&chunk[..CHUNK_CAPACITY]).map(|v| v.len()), Ok(CHUNK_CAPACITY - 1));
}

#[test]
fn builder_fails_when_target_never_reached() {
    let mut builder = DraftBuilder::new(EditOp::Replace(1), 5);
    assert_eq!(builder.next_chunk(&[1, 2, 3]).unwrap(), vec![1, 2, 3]);
    assert_eq!(builder.finish(), Err(EditError::IntegrityFailure));
}

#[test]
fn builder_enforces_chunk_ceiling() {
    let mut builder = DraftBuilder::new(EditOp::Remove, 0);
    for _ in 0..MAX_CHUNKS {
        assert!(builder.next_chunk(&[]).is_ok());
    }
    assert_eq!(builder.next_chunk(&[]), Err(EditError::IntegrityFailure));
}

#[test]
fn verifier_refuses_wrong_length() {
    assert!(IntegrityVerifier::new(EditOp::Replace(1), 0, 0, 5, 4).is_err());
    assert!(IntegrityVerifier::new(EditOp::Remove, 0, 0, 5, 5).is_err());
    assert!(IntegrityVerifier::new(EditOp::Remove, 0, 0, 5, 4).is_ok());
    assert!(IntegrityVerifier::new(EditOp::Replace(1), 0, 0, 5, 5).is_ok());
}

#[test]
fn verifier_walks_the_phases_for_remove() {
    let original = [1u8, 2, 3, 4, 5];
    let draft = [1u8, 2, 4, 5];
    let mut v = IntegrityVerifier::new(EditOp::Remove, 2, 3, 5, 4).unwrap();
    assert_eq!(v.window_sizes(), (2, 2));
    assert_eq!(v.step(&original[0..2], &draft[0..2]), Ok(()));
    assert_eq!(v.window_sizes(), (2, 1));
    assert_eq!(v.step(&original[2..4], &draft[2..3]), Ok(()));
    assert_eq!(v.window_sizes(), (64, 64));
    assert_eq!(v.step(&original[4..5], &draft[3..4]), Ok(()));
    assert!(!v.is_complete());
    assert_eq!(v.step(&[], &[]), Ok(()));
    assert!(v.is_complete());
}

#[test]
fn verifier_refuses_streams_ending_apart() {
    let mut v = IntegrityVerifier::new(EditOp::Replace(9), 0, 1, 2, 2).unwrap();
    assert_eq!(v.step(&[1], &[9]), Ok(()));
    assert_eq!(v.step(&[2], &[]), Err(EditError::IntegrityFailure));
}

#[test]
fn verify_edit_accepts_correct_drafts() {
    let original = [0x00u8, 0x11, 0x22, 0x33, 0x44];
    assert_eq!(verify_edit(&original, &[0x00, 0x11, 0xFF, 0x33, 0x44], 2, EditOp::Replace(0xFF), 0x22), Ok(()));
    assert_eq!(verify_edit(&original, &[0x00, 0x11, 0x33, 0x44], 2, EditOp::Remove, 0x22), Ok(()));
    assert_eq!(verify_edit(&original, &[0x00, 0x11, 0x22, 0x33], 4, EditOp::Remove, 0x44), Ok(()));
}

#[test]
fn verify_edit_rejects_injected_faults() {
    let original = [0x00u8, 0x11, 0x22, 0x33, 0x44];
    // a changed byte before the target
    assert_eq!(
        verify_edit(&original, &[0x01, 0x11, 0xFF, 0x33, 0x44], 2, EditOp::Replace(0xFF), 0x22),
        Err(EditError::IntegrityFailure)
    );
    // a changed byte after the target
    assert_eq!(
        verify_edit(&original, &[0x00, 0x11, 0x33, 0x45], 2, EditOp::Remove, 0x22),
        Err(EditError::IntegrityFailure)
    );
    // a wrong value at the target
    assert_eq!(
        verify_edit(&original, &[0x00, 0x11, 0xFE, 0x33, 0x44], 2, EditOp::Replace(0xFF), 0x22),
        Err(EditError::IntegrityFailure)
    );
    // a wrong record of the original byte
    assert_eq!(
        verify_edit(&original, &[0x00, 0x11, 0x33, 0x44], 2, EditOp::Remove, 0x23),
        Err(EditError::IntegrityFailure)
    );
    // no frame shift: the wrong byte was dropped
    assert_eq!(
        verify_edit(&original, &[0x00, 0x11, 0x22, 0x44], 2, EditOp::Remove, 0x22),
        Err(EditError::IntegrityFailure)
    );
}

#[test]
fn verifier_phase_starts_at_target_for_offset_zero() {
    let v = IntegrityVerifier::new(EditOp::Remove, 0, 7, 3, 2).unwrap();
    assert_eq!(v.window_sizes(), (2, 1));
    assert!(!v.is_complete());
}
