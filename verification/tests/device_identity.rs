use device_id::{
    persist_failure_note, resolve, restore, CacheReadOutcome, DeviceId, DeviceIdError, Resolution,
    ID_BYTE_LEN,
};

#[test]
fn round_trip_from_bytes_returns_same_bytes() {
    let d = DeviceId::new_v4();
    let restored = DeviceId::from_bytes(d.as_bytes()).expect("16 bytes must parse");
    assert_eq!(restored.as_bytes(), d.as_bytes());
}

#[test]
fn round_trip_through_restore_returns_same_bytes() {
    let d = DeviceId::new_v4();
    let record = d.as_bytes().to_vec();
    let restored = restore(&CacheReadOutcome::Content(record)).expect("a 16-byte record restores");
    assert_eq!(restored.as_bytes(), d.as_bytes());
}

#[test]
fn restore_is_deterministic_for_equal_content() {
    let record: Vec<u8> = (0u8..16u8).collect();
    let a = restore(&CacheReadOutcome::Content(record.clone())).expect("16 bytes restore");
    let b = restore(&CacheReadOutcome::Content(record)).expect("16 bytes restore");
    assert_eq!(a.as_bytes(), b.as_bytes());
}

#[test]
fn missing_file_generates_a_valid_v4_id() {
    let (id, how) = resolve(&CacheReadOutcome::Unreadable);
    assert_eq!(how, Resolution::Generated(DeviceIdError::NoFile));
    let bytes = id.as_bytes();
    assert_eq!(bytes.len(), ID_BYTE_LEN);
    assert_eq!(bytes[6] & 0xf0, 0x40);
    assert_eq!(bytes[8] & 0xc0, 0x80);
}

#[test]
fn missing_cache_directory_generates_a_valid_v4_id() {
    let (id, how) = resolve(&CacheReadOutcome::NoDirectory);
    assert_eq!(how, Resolution::Generated(DeviceIdError::NoCacheDir));
    assert_eq!(id.as_bytes().len(), ID_BYTE_LEN);
    assert_eq!(id.as_bytes()[6] & 0xf0, 0x40);
    assert_eq!(id.as_bytes()[8] & 0xc0, 0x80);
}

#[test]
fn truncated_record_of_three_bytes_recovers_with_a_fresh_id() {
    let (id, how) = resolve(&CacheReadOutcome::Content(vec![9u8, 8u8, 7u8]));
    assert_eq!(how, Resolution::Generated(DeviceIdError::DataInvalid));
    assert_eq!(id.as_bytes().len(), ID_BYTE_LEN);
    assert_eq!(id.as_bytes()[6] & 0xf0, 0x40);
    assert_eq!(id.as_bytes()[8] & 0xc0, 0x80);
}

#[test]
fn five_arbitrary_bytes_are_invalid_data() {
    let r = DeviceId::from_bytes(&[1u8, 2, 3, 4, 5]);
    assert!(matches!(r, Err(DeviceIdError::DataInvalid)));
}

#[test]
fn lengths_next_to_sixteen_are_invalid_data() {
    let fifteen = vec![0xabu8; 15];
    let seventeen = vec![0xabu8; 17];
    assert!(matches!(
        DeviceId::from_bytes(&fifteen),
        Err(DeviceIdError::DataInvalid)
    ));
    assert!(matches!(
        DeviceId::from_bytes(&seventeen),
        Err(DeviceIdError::DataInvalid)
    ));
    assert!(matches!(DeviceId::from_bytes(&[]), Err(DeviceIdError::DataInvalid)));
}

#[test]
fn any_sixteen_bytes_restore_unchanged_even_all_zero() {
    let zeros = vec![0u8; 16];
    let restored = restore(&CacheReadOutcome::Content(zeros.clone())).expect("16 bytes restore");
    assert_eq!(restored.as_bytes(), zeros.as_slice());

    let (id, how) = resolve(&CacheReadOutcome::Content(zeros.clone()));
    assert_eq!(how, Resolution::Restored);
    assert_eq!(id.as_bytes(), zeros.as_slice());
}

#[test]
fn restore_reports_each_failure_with_its_own_reason() {
    assert!(matches!(
        restore(&CacheReadOutcome::NoDirectory),
        Err(DeviceIdError::NoCacheDir)
    ));
    assert!(matches!(
        restore(&CacheReadOutcome::Unreadable),
        Err(DeviceIdError::NoFile)
    ));
    assert!(matches!(
        restore(&CacheReadOutcome::Content(vec![0u8; 4])),
        Err(DeviceIdError::DataInvalid)
    ));
}

#[test]
fn generated_id_is_a_v4_uuid_for_the_uuid_crate_too() {
    let d = DeviceId::new_v4();
    let u = uuid::Uuid::from_slice(d.as_bytes()).expect("16 bytes build a uuid");
    assert_eq!(u.get_version_num(), 4);
    assert!(matches!(u.get_variant(), uuid::Variant::RFC4122));
    assert_eq!(u.as_bytes().as_slice(), d.as_bytes());
}

#[test]
fn log_notes_name_each_failure_and_the_fallback() {
    let a = DeviceIdError::NoCacheDir.note();
    let b = DeviceIdError::NoFile.note();
    let c = DeviceIdError::DataInvalid.note();
    assert_ne!(a, b);
    assert_ne!(b, c);
    assert_ne!(a, c);
    assert!(a.contains("new device id"));
    assert!(b.contains("new device id"));
    assert!(c.contains("new device id"));
    assert_eq!(
        persist_failure_note(),
        "can't save the device id to a file; it will not be restored next time"
    );
}
