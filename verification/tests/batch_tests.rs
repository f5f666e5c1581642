use polkacli::batch::{
    choose_asset_source, validate_mint_inputs, AssetSource, BatchAction, BatchOrchestrator,
};
use polkacli::descriptor::Descriptor;
use polkacli::error::{InputFault, PipelineError, PipelineStage};
use polkacli::submit::ChainEvent;

fn names(list: &[&str]) -> Vec<String> {
    list.iter().map(|n| n.to_string()).collect()
}

fn published_descriptor() -> Descriptor {
    Descriptor::from_bytes(br#"{"name":"token","image":"ipfs://QmAlready"}"#).unwrap()
}

fn bare_descriptor() -> Descriptor {
    Descriptor::from_bytes(br#"{"name":"token"}"#).unwrap()
}

#[test]
fn asset_without_descriptor_is_ambiguous_input() {
    let asset = "picture.jpg".to_string();
    let err = validate_mint_inputs(None, Some(&asset)).unwrap_err();
    assert_eq!(err, PipelineError::Input(InputFault::AmbiguousInput));

    let descriptor = "item.json".to_string();
    assert!(validate_mint_inputs(Some(&descriptor), Some(&asset)).is_ok());
    assert!(validate_mint_inputs(Some(&descriptor), None).is_ok());
    assert!(validate_mint_inputs(None, None).is_ok());
}

#[test]
fn published_descriptor_skips_the_asset_step() {
    let d = published_descriptor();
    let listing = names(&["item.jpg"]);
    let source = choose_asset_source(&d, None, "item.json", Some(&listing)).unwrap();
    assert!(matches!(source, AssetSource::AlreadyPublished));
}

#[test]
fn explicit_asset_takes_precedence_over_inference() {
    let d = bare_descriptor();
    let explicit = "elsewhere.png".to_string();
    let listing = names(&["item.jpg"]);
    let source = choose_asset_source(&d, Some(&explicit), "item.json", Some(&listing)).unwrap();
    match source {
        AssetSource::ExplicitFile(f) => assert_eq!(f, "elsewhere.png"),
        other => panic!("unexpected source: {:?}", other),
    }
}

#[test]
fn inferred_asset_comes_from_the_listing() {
    let d = bare_descriptor();
    let listing = names(&["item.png"]);
    let source = choose_asset_source(&d, None, "item.json", Some(&listing)).unwrap();
    match source {
        AssetSource::InferredFile(f) => assert_eq!(f, "item.png"),
        other => panic!("unexpected source: {:?}", other),
    }
}

#[test]
fn no_listing_and_no_image_is_asset_not_found() {
    let d = bare_descriptor();
    let err = choose_asset_source(&d, None, "item.json", None).unwrap_err();
    assert_eq!(err, PipelineError::Input(InputFault::AssetNotFound));
}

#[test]
fn second_mint_failure_aborts_only_that_item() {
    let (mut batch, act) = BatchOrchestrator::new(names(&["a.json", "b.json", "c.json"]), None);
    assert!(matches!(act, BatchAction::CreateCollection));

    let act = batch.collection_concluded(Ok(ChainEvent::Created { collection: 7 }));
    assert!(matches!(&act, BatchAction::ReadDescriptor { name } if name == "a.json"));

    for item in 0u32..3u32 {
        let act = batch.descriptor_concluded(Ok(published_descriptor()));
        assert!(matches!(act, BatchAction::PinPayload { .. }));

        let act = batch.pin_concluded(Ok(format!("ipfs://QmDoc{}", item)));
        match act {
            BatchAction::SubmitMint { collection, item: id } => {
                assert_eq!(collection, 7);
                assert_eq!(id, item);
            }
            other => panic!("unexpected action: {:?}", other),
        }

        let mint_outcome = if item == 1 {
            Err(PipelineError::TransactionFailed("module error".to_string()))
        } else {
            Ok(ChainEvent::Issued { collection: 7, item })
        };
        let act = batch.mint_concluded(mint_outcome);
        if item == 1 {
            // the failed item is recorded and the batch moves straight on
            assert!(matches!(&act, BatchAction::ReadDescriptor { name } if name == "c.json"));
        } else {
            let act = match act {
                BatchAction::SubmitMetadata { collection, item: id, payload } => {
                    assert_eq!(collection, 7);
                    assert_eq!(id, item);
                    assert_eq!(payload, format!("ipfs://QmDoc{}", item).into_bytes());
                    batch.metadata_concluded(Ok(()))
                }
                other => panic!("unexpected action: {:?}", other),
            };
            if item == 0 {
                assert!(matches!(&act, BatchAction::ReadDescriptor { name } if name == "b.json"));
            } else {
                assert!(matches!(act, BatchAction::Finished));
            }
        }
    }

    assert!(batch.is_complete());
    let results = batch.results();
    assert_eq!(results.len(), 3);
    assert_eq!(results[0].item, 0);
    assert_eq!(results[1].item, 1);
    assert_eq!(results[2].item, 2);
    assert_eq!(results[0].outcome, Ok("ipfs://QmDoc0".to_string()));
    assert_eq!(results[2].outcome, Ok("ipfs://QmDoc2".to_string()));
    let failure = results[1].outcome.as_ref().unwrap_err();
    assert_eq!(failure.stage, PipelineStage::Submission);
    assert_eq!(failure.error, PipelineError::TransactionFailed("module error".to_string()));
}

#[test]
fn collection_failure_is_fatal_to_the_batch() {
    let (mut batch, _) = BatchOrchestrator::new(names(&["a.json"]), None);
    let act = batch.collection_concluded(Err(PipelineError::TransactionRejected(
        "pool full".to_string(),
    )));
    assert!(matches!(act, BatchAction::Finished));
    assert!(!batch.is_complete());
    assert_eq!(
        batch.fatal_error(),
        Some(&PipelineError::TransactionRejected("pool full".to_string()))
    );
    assert!(batch.results().is_empty());
}

#[test]
fn missing_expected_collection_event_is_fatal() {
    let (mut batch, _) = BatchOrchestrator::new(names(&["a.json"]), None);
    let act = batch.collection_concluded(Ok(ChainEvent::Other));
    assert!(matches!(act, BatchAction::Finished));
    assert_eq!(batch.fatal_error(), Some(&PipelineError::ExpectedEventMissing));
}

#[test]
fn empty_batch_completes_after_the_collection() {
    let (mut batch, _) = BatchOrchestrator::new(Vec::new(), None);
    let act = batch.collection_concluded(Ok(ChainEvent::Created { collection: 1 }));
    assert!(matches!(act, BatchAction::Finished));
    assert!(batch.is_complete());
    assert!(batch.results().is_empty());
}

#[test]
fn bare_descriptor_pins_its_asset_first() {
    let (mut batch, _) = BatchOrchestrator::new(
        names(&["item.json"]),
        Some(names(&["item.jpg", "item.png"])),
    );
    batch.collection_concluded(Ok(ChainEvent::Created { collection: 2 }));

    // asset extension precedence: jpg wins over png
    let act = batch.descriptor_concluded(Ok(bare_descriptor()));
    assert!(matches!(&act, BatchAction::PinAssetFile { name } if name == "item.jpg"));

    // the freshly pinned asset locator is written into the descriptor, which
    // is then serialized and pinned in turn
    let act = batch.pin_concluded(Ok("ipfs://QmAsset".to_string()));
    match &act {
        BatchAction::PinPayload { payload } => {
            let pinned = Descriptor::from_bytes(payload).unwrap();
            assert_eq!(pinned.image_text().as_deref(), Some("ipfs://QmAsset"));
        }
        other => panic!("unexpected action: {:?}", other),
    }

    let act = batch.pin_concluded(Ok("ipfs://QmDoc".to_string()));
    assert!(matches!(act, BatchAction::SubmitMint { collection: 2, item: 0 }));
}

#[test]
fn missing_asset_aborts_the_single_item_not_the_batch() {
    let (mut batch, _) = BatchOrchestrator::new(
        names(&["one.json", "two.json"]),
        Some(names(&["two.jpg"])),
    );
    batch.collection_concluded(Ok(ChainEvent::Created { collection: 3 }));

    let act = batch.descriptor_concluded(Ok(bare_descriptor()));
    assert!(matches!(&act, BatchAction::ReadDescriptor { name } if name == "two.json"));
    let first = &batch.results()[0];
    assert_eq!(first.item, 0);
    let failure = first.outcome.as_ref().unwrap_err();
    assert_eq!(failure.stage, PipelineStage::Linking);
    assert_eq!(failure.error, PipelineError::Input(InputFault::AssetNotFound));
}

#[test]
fn descriptor_load_failure_is_recorded_under_linking() {
    let (mut batch, _) = BatchOrchestrator::new(names(&["one.json"]), None);
    batch.collection_concluded(Ok(ChainEvent::Created { collection: 4 }));
    let act = batch.descriptor_concluded(Err(PipelineError::Transport("io failure".to_string())));
    assert!(matches!(act, BatchAction::Finished));
    assert!(batch.is_complete());
    let failure = batch.results()[0].outcome.as_ref().unwrap_err();
    assert_eq!(failure.stage, PipelineStage::Linking);
    assert_eq!(failure.error, PipelineError::Transport("io failure".to_string()));
}

#[test]
fn pin_failure_is_recorded_under_pinning() {
    let (mut batch, _) = BatchOrchestrator::new(names(&["one.json"]), None);
    batch.collection_concluded(Ok(ChainEvent::Created { collection: 5 }));
    batch.descriptor_concluded(Ok(published_descriptor()));
    let act = batch.pin_concluded(Err(PipelineError::PinningProvider("overloaded".to_string())));
    assert!(matches!(act, BatchAction::Finished));
    let failure = batch.results()[0].outcome.as_ref().unwrap_err();
    assert_eq!(failure.stage, PipelineStage::Pinning);
    assert_eq!(failure.error, PipelineError::PinningProvider("overloaded".to_string()));
}
