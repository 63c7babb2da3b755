use flowy_storage::{ObjectValueSupabase, StorageError, StorageErrorKind, StorageObject};

#[test]
fn from_bytes_note_txt_scenario() {
    let object = StorageObject::from_bytes(
        "ws1",
        "note.txt",
        bytes::Bytes::from(b"hello".to_vec()),
        "text/plain".to_string(),
    );
    assert_eq!(object.workspace_id, "ws1");
    assert_eq!(object.file_name, "note.txt");
    assert_eq!(object.in_memory_size(), Some(5));
    assert_eq!(object.value.mime_type(), "text/plain");
}

#[test]
fn bytes_variant_reports_declared_mime_exactly() {
    let object = StorageObject::from_bytes(
        "ws",
        "blob",
        bytes::Bytes::from(vec![0u8, 1, 2]),
        "application/x-custom; charset=whatever".to_string(),
    );
    assert_eq!(
        object.value.mime_type(),
        "application/x-custom; charset=whatever"
    );
}

#[test]
fn file_variant_guesses_mime_from_extension() {
    let object = StorageObject::from_file("ws", "report", "somewhere/report.pdf");
    assert_eq!(object.value.mime_type(), "application/pdf");
}

#[test]
fn file_variant_unknown_extension_defaults_to_octet_stream() {
    let object = StorageObject::from_file("ws", "data", "somewhere/data.xyz123");
    assert_eq!(object.value.mime_type(), "application/octet-stream");
}

#[test]
fn file_variant_fields_carry_over() {
    let object = StorageObject::from_file("ws9", "named", "a/b/c.bin");
    assert_eq!(object.workspace_id, "ws9");
    assert_eq!(object.file_name, "named");
    match &object.value {
        ObjectValueSupabase::File { file_path } => assert_eq!(file_path, "a/b/c.bin"),
        ObjectValueSupabase::Bytes { .. } => panic!("expected a file payload"),
    }
}

#[test]
fn file_variant_size_is_not_known_in_memory() {
    let object = StorageObject::from_file("ws", "report", "somewhere/report.pdf");
    assert_eq!(object.in_memory_size(), None);
}

#[test]
fn in_memory_size_matches_byte_count() {
    let payload: Vec<u8> = vec![42u8; 1024];
    let object = StorageObject::from_bytes(
        "ws",
        "big",
        bytes::Bytes::from(payload),
        "application/octet-stream".to_string(),
    );
    assert_eq!(object.in_memory_size(), Some(1024));
}

#[test]
fn error_kinds_carry_their_message() {
    let io = StorageError::new(StorageErrorKind::Io, "could not read the file");
    assert_eq!(io.kind, StorageErrorKind::Io);
    assert_eq!(io.msg, "could not read the file");

    let backend = StorageError::new(StorageErrorKind::Backend, "rejected");
    assert_eq!(backend.kind, StorageErrorKind::Backend);

    let quota = StorageError::new(StorageErrorKind::Quota, "over the limit");
    assert_eq!(quota.kind, StorageErrorKind::Quota);

    let unimplemented = StorageError::new(StorageErrorKind::Unimplemented, "no filesystem here");
    assert_eq!(unimplemented.kind, StorageErrorKind::Unimplemented);
}
