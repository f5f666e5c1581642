use polkacli::error::{InputFault, PipelineError};
use polkacli::linker::{file_stem, find_image_for_json};

fn listing(names: &[&str]) -> Vec<String> {
    names.iter().map(|n| n.to_string()).collect()
}

#[test]
fn stem_strips_the_extension() {
    assert_eq!(file_stem("item.json"), "item");
    assert_eq!(file_stem("archive.tar.gz"), "archive.tar");
    assert_eq!(file_stem("item."), "item");
}

#[test]
fn stem_of_plain_name_is_the_name() {
    assert_eq!(file_stem("item"), "item");
    assert_eq!(file_stem(""), "");
    assert_eq!(file_stem("."), ".");
    assert_eq!(file_stem(".hidden"), ".hidden");
}

#[test]
fn png_resolves_when_no_jpg_or_jpeg_exists() {
    let files = listing(&["item.png", "other.jpg", "item.json"]);
    let found = find_image_for_json("item.json", &files).unwrap();
    assert_eq!(found, "item.png");
}

#[test]
fn jpg_takes_precedence_over_png() {
    let files = listing(&["item.png", "item.jpg"]);
    let found = find_image_for_json("item.json", &files).unwrap();
    assert_eq!(found, "item.jpg");
}

#[test]
fn jpeg_takes_precedence_over_png() {
    let files = listing(&["item.png", "item.jpeg"]);
    let found = find_image_for_json("item.json", &files).unwrap();
    assert_eq!(found, "item.jpeg");
}

#[test]
fn missing_asset_is_reported() {
    let files = listing(&["other.jpg", "item.gif"]);
    let err = find_image_for_json("item.json", &files).unwrap_err();
    assert_eq!(err, PipelineError::Input(InputFault::AssetNotFound));
}

#[test]
fn empty_listing_resolves_nothing() {
    let files: Vec<String> = Vec::new();
    let err = find_image_for_json("item.json", &files).unwrap_err();
    assert_eq!(err, PipelineError::Input(InputFault::AssetNotFound));
}
