use pushwasm::arguments::{classify_import, connection_action, ConnAction, ImportKind, ImportSource};
use pushwasm::errors::BuildError;
use pushwasm::query_builder::QueryBuilder;

#[test]
fn inline_base64_round_trip() {
    let source = ImportSource::Base64("aGVsbG8=".to_string());
    let text = source.unpack().unwrap();
    assert_eq!(text, "hello");
}

#[test]
fn inline_base64_binds_unchanged() {
    let source = ImportSource::Base64("aGVsbG8=".to_string());
    let mut params = Vec::new();
    let fragment = source.build(&mut params).unwrap();
    assert_eq!(fragment, "FROM BASE64 ?");
    assert_eq!(params, vec!["aGVsbG8=".to_string()]);
}

#[test]
fn local_bytes_unpack_as_utf8() {
    let source = ImportSource::Bytes("interface {}".as_bytes().to_vec());
    assert_eq!(source.unpack().unwrap(), "interface {}");
}

#[test]
fn invalid_base64_is_a_decode_error() {
    let source = ImportSource::Base64("%%%not base64%%%".to_string());
    assert!(matches!(source.unpack(), Err(BuildError::DecodeError)));
}

#[test]
fn invalid_utf8_is_a_decode_error() {
    let source = ImportSource::Bytes(vec![0xff, 0xfe, 0x00]);
    assert!(matches!(source.unpack(), Err(BuildError::DecodeError)));
    // base64 for the same bytes: decodes fine, but the text is not UTF-8
    let inline = ImportSource::Base64("//4A".to_string());
    assert!(matches!(inline.unpack(), Err(BuildError::DecodeError)));
}

#[test]
fn url_unpack_is_unsupported() {
    let source = ImportSource::Url("https://example.com/x.wit".to_string());
    assert!(matches!(source.unpack(), Err(BuildError::UnsupportedOperation)));
}

#[test]
fn import_sniffing_rules() {
    assert_eq!(classify_import("https://example.com/m.wasm", false), ImportKind::RemoteUrl);
    assert_eq!(classify_import("http://example.com/m.wasm", true), ImportKind::RemoteUrl);
    assert_eq!(classify_import("module.wasm", true), ImportKind::LocalFile);
    assert_eq!(classify_import("AAAA", false), ImportKind::InlineBase64);
    assert_eq!(classify_import("", false), ImportKind::InlineBase64);
}

#[test]
fn connection_scheme_decision() {
    assert_eq!(connection_action("mysql"), ConnAction::UseDirectly);
    assert_eq!(connection_action("file"), ConnAction::ReadFromFile);
    assert_eq!(connection_action("https"), ConnAction::Reject);
    assert_eq!(connection_action(""), ConnAction::Reject);
}
