use polkacli::descriptor::Descriptor;
use polkacli::error::{InputFault, PipelineError};

#[test]
fn well_formed_documents_load() {
    let d = Descriptor::from_bytes(br#"{"name":"token","image":"ipfs://QmX"}"#).unwrap();
    assert!(d.has_published_image());
    assert_eq!(d.image_text().as_deref(), Some("ipfs://QmX"));
}

#[test]
fn malformed_documents_are_rejected() {
    let err = Descriptor::from_bytes(b"{ not json").unwrap_err();
    assert!(matches!(err, PipelineError::Input(InputFault::MalformedDescriptor(_))));
}

#[test]
fn non_mapping_documents_are_rejected() {
    let err = Descriptor::from_bytes(b"[1, 2, 3]").unwrap_err();
    assert!(matches!(err, PipelineError::Input(InputFault::MalformedDescriptor(_))));
}

#[test]
fn an_empty_image_field_is_not_published() {
    let d = Descriptor::from_bytes(br#"{"image":""}"#).unwrap();
    assert!(!d.has_published_image());
    assert_eq!(d.image_text().as_deref(), Some(""));
}

#[test]
fn a_missing_image_field_is_not_published() {
    let d = Descriptor::from_bytes(br#"{"name":"bare"}"#).unwrap();
    assert!(!d.has_published_image());
    assert!(d.image_text().is_none());
}

#[test]
fn a_non_text_image_field_is_not_published() {
    let d = Descriptor::from_bytes(br#"{"image":17}"#).unwrap();
    assert!(!d.has_published_image());
    assert!(d.image_text().is_none());
}

#[test]
fn written_locators_survive_serialization() {
    let mut d = Descriptor::from_bytes(br#"{"name":"token","edition":3}"#).unwrap();
    d.set_image_locator("ipfs://QmFresh".to_string());
    assert!(d.has_published_image());

    let bytes = d.to_bytes();
    let reloaded = Descriptor::from_bytes(&bytes).unwrap();
    assert_eq!(reloaded.image_text().as_deref(), Some("ipfs://QmFresh"));
}

#[test]
fn passthrough_fields_survive_the_round_trip() {
    let mut d = Descriptor::from_bytes(br#"{"name":"token","edition":3}"#).unwrap();
    d.set_image_locator("ipfs://QmFresh".to_string());
    let bytes = d.to_bytes();
    let text = String::from_utf8(bytes).unwrap();
    assert!(text.contains(r#""name":"token""#));
    assert!(text.contains(r#""edition":3"#));
    assert!(text.contains(r#""image":"ipfs://QmFresh""#));
}

#[test]
fn overwriting_the_locator_keeps_the_last_value() {
    let mut d = Descriptor::from_bytes(br#"{"image":"ipfs://QmOld"}"#).unwrap();
    d.set_image_locator("ipfs://QmNew".to_string());
    let bytes = d.to_bytes();
    let reloaded = Descriptor::from_bytes(&bytes).unwrap();
    assert_eq!(reloaded.image_text().as_deref(), Some("ipfs://QmNew"));
}
