use flowy_storage::decimal_string;
use flowy_storage::object_from_content;
use flowy_storage::path_ext::extension_of;

#[test]
fn same_content_different_paths_same_file_id() {
    let content: Vec<u8> = b"the very same bytes".to_vec();
    let (id_a, _) = object_from_content("ws_a", "one/report.pdf", content.clone());
    let (id_b, _) = object_from_content("ws_b", "two/notes.txt", content.clone());
    assert_eq!(id_a.file_id, id_b.file_id);
    assert_eq!(id_a.ext, "pdf");
    assert_eq!(id_b.ext, "txt");
}

#[test]
fn file_id_stable_across_repeated_runs() {
    let content: Vec<u8> = vec![1, 2, 3, 4, 5];
    let (first, _) = object_from_content("ws", "a.bin", content.clone());
    let (second, _) = object_from_content("ws", "a.bin", content.clone());
    assert_eq!(first.file_id, second.file_id);
}

#[test]
fn report_pdf_scenario() {
    let content: Vec<u8> = vec![7u8; 1024];
    let (identity, value) = object_from_content("ws", "report.pdf", content.clone());
    assert_eq!(identity.workspace_id, "ws");
    assert_eq!(identity.ext, "pdf");
    assert_eq!(identity.file_id, fxhash::hash(&content).to_string());
    assert_eq!(value.mime, "application/pdf");
    assert_eq!(value.raw.as_ref(), &content[..]);
}

#[test]
fn unknown_extension_falls_back_to_octet_stream() {
    let content: Vec<u8> = b"opaque".to_vec();
    let (identity, value) = object_from_content("ws", "data.xyz123", content);
    assert_eq!(identity.ext, "xyz123");
    assert_eq!(value.mime, "application/octet-stream");
}

#[test]
fn empty_content_still_derives_an_identity() {
    let empty: Vec<u8> = Vec::new();
    let (identity, value) = object_from_content("ws", "empty", empty.clone());
    assert_eq!(identity.ext, "");
    assert_eq!(identity.file_id, fxhash::hash(&empty).to_string());
    assert_eq!(value.raw.len(), 0);
}

#[test]
fn cloned_value_shares_the_same_payload() {
    let content: Vec<u8> = b"shared payload".to_vec();
    let (_, value) = object_from_content("ws", "shared.bin", content.clone());
    let copy = value.clone();
    assert_eq!(copy.raw.as_ref(), &content[..]);
    assert_eq!(copy.mime, value.mime);
}

#[test]
fn decimal_rendering_matches_standard_formatting() {
    assert_eq!(decimal_string(0), "0");
    assert_eq!(decimal_string(7), "7");
    assert_eq!(decimal_string(10), "10");
    assert_eq!(decimal_string(90210), "90210");
    assert_eq!(decimal_string(usize::MAX), usize::MAX.to_string());
}

#[test]
fn extension_rules() {
    assert_eq!(extension_of("archive.tar.gz"), "gz");
    assert_eq!(extension_of("plain"), "");
    assert_eq!(extension_of(".gitignore"), "");
    assert_eq!(extension_of("trailing."), "");
    assert_eq!(extension_of("dir.d/inner"), "");
    assert_eq!(extension_of("a/b/c.txt"), "txt");
    assert_eq!(extension_of("a/b.txt/"), "txt");
    assert_eq!(extension_of(""), "");
    assert_eq!(extension_of("/"), "");
}
