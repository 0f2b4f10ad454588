use rugix_core::bundle::{check_payload, BundleError, DeltaEncoding, PayloadEntry, PayloadTarget};

fn entry(header: u8, file: u8) -> PayloadEntry {
    PayloadEntry {
        target: PayloadTarget::Slot { slot: "system".to_string() },
        header_hash: vec![header; 32],
        file_hash: vec![file; 32],
        delta_encoding: None,
    }
}

#[test]
fn matching_hashes_pass() {
    let index = vec![entry(1, 2), entry(3, 4)];
    assert_eq!(check_payload(&index, 1, &vec![3; 32], &vec![4; 32]), Ok(()));
}

#[test]
fn header_hash_mismatch_fails() {
    let index = vec![entry(1, 2)];
    assert_eq!(
        check_payload(&index, 0, &vec![9; 32], &vec![2; 32]),
        Err(BundleError::HeaderHashMismatch { payload: 0 })
    );
    assert_eq!(
        check_payload(&index, 0, &vec![1; 31], &vec![2; 32]),
        Err(BundleError::HeaderHashMismatch { payload: 0 })
    );
}

#[test]
fn file_hash_mismatch_fails() {
    let index = vec![entry(1, 2)];
    assert_eq!(
        check_payload(&index, 0, &vec![1; 32], &vec![7; 32]),
        Err(BundleError::FileHashMismatch { payload: 0 })
    );
}

#[test]
fn payload_without_entry_fails() {
    let index = vec![entry(1, 2)];
    assert_eq!(
        check_payload(&index, 1, &vec![1; 32], &vec![2; 32]),
        Err(BundleError::MissingPayloadEntry { payload: 1 })
    );
}

#[test]
fn delta_base_must_match() {
    let mut e = entry(1, 2);
    assert_eq!(e.check_delta_base(None), Ok(()));
    e.delta_encoding = Some(DeltaEncoding { format: vec![1], original_hash: vec![5; 32] });
    assert_eq!(e.check_delta_base(Some(&vec![5; 32])), Ok(()));
    assert_eq!(e.check_delta_base(Some(&vec![6; 32])), Err(BundleError::DeltaBaseUnavailable));
    assert_eq!(e.check_delta_base(None), Err(BundleError::DeltaBaseUnavailable));
}
