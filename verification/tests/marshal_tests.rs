use mtg_rust::marshal::{convert_bytes, convert_str, decode, pack_pair, PersistentRead};
use mtg_rust::MtgError;

#[test]
fn pack_pair_keeps_small_values() {
    assert_eq!(pack_pair(10, 3), Ok((10, 3)));
    assert_eq!(pack_pair(0, 0), Ok((0, 0)));
    assert_eq!(pack_pair(i32::MAX as usize, i32::MAX as usize), Ok((i32::MAX, i32::MAX)));
}

#[test]
fn pack_pair_rejects_wide_values() {
    assert_eq!(pack_pair(i32::MAX as usize + 1, 3), Err(MtgError::ConversionOverflow));
    assert_eq!(pack_pair(3, i32::MAX as usize + 1), Err(MtgError::ConversionOverflow));
}

#[test]
fn convert_str_reports_byte_length() {
    match convert_str("abc") {
        Ok((address, len)) => {
            assert!(address >= 0);
            assert_eq!(len, 3);
        }
        // On hosts whose heap lies above the boundary's 32-bit range the
        // address itself does not fit; that is the one allowed failure.
        Err(e) => assert_eq!(e, MtgError::ConversionOverflow),
    }
}

#[test]
fn convert_bytes_reports_length() {
    match convert_bytes(&[1, 2, 3, 4]) {
        Ok((address, len)) => {
            assert!(address >= 0);
            assert_eq!(len, 4);
        }
        Err(e) => assert_eq!(e, MtgError::ConversionOverflow),
    }
}

#[test]
fn decode_of_zero_length_is_local_and_empty() {
    match decode(0) {
        Ok(PersistentRead::Empty) => {}
        other => panic!("expected the empty read, got {:?}", other),
    }
}

#[test]
fn decode_allocates_exactly_the_requested_bytes() {
    match decode(5) {
        Ok(PersistentRead::Fill(buffer)) => assert_eq!(buffer, vec![0u8; 5]),
        other => panic!("expected a fill buffer, got {:?}", other),
    }
}

#[test]
fn decode_rejects_negative_lengths() {
    match decode(-1) {
        Err(MtgError::ConversionOverflow) => {}
        other => panic!("expected a conversion overflow, got {:?}", other),
    }
}

#[test]
fn error_messages_name_the_failure() {
    assert!(!MtgError::ConversionOverflow.message().is_empty());
    assert!(!MtgError::NullHandle.message().is_empty());
    assert!(!MtgError::UnknownEnumValue.message().is_empty());
    assert!(!MtgError::PersistentDataShapeMismatch.message().is_empty());
}
