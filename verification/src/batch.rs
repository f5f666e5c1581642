use vstd::prelude::*;
use vstd::utf8::encode_utf8;

use crate::descriptor::{fields_image_text, serial_of, Descriptor};
use crate::error::{InputFault, PipelineError, PipelineStage};
use crate::linker::{find_image_for_json, resolved_asset, stem_of};
use crate::submit::ChainEvent;

verus! {

/// Rejects an asset supplied without a descriptor: a descriptor is mandatory
/// context for any asset, so this pairing is ambiguous input, refused before
/// anything is read or pinned.
pub fn validate_mint_inputs(descriptor_path: Option<&String>, asset_path: Option<&String>) -> (r:
    Result<(), PipelineError>)
    ensures
        descriptor_path is None && asset_path is Some ==> r == Err::<(), PipelineError>(
            PipelineError::Input(InputFault::AmbiguousInput),
        ),
        !(descriptor_path is None && asset_path is Some) ==> r == Ok::<(), PipelineError>(()),
{
    if descriptor_path.is_none() && asset_path.is_some() {
        Err(PipelineError::Input(InputFault::AmbiguousInput))
    } else {
        Ok(())
    }
}

/// Where one item's binary asset comes from.
#[derive(Debug)]
pub enum AssetSource {
    /// The descriptor already carries a non-empty locator: the asset is
    /// treated as already published and is not pinned again.
    AlreadyPublished,
    /// The caller supplied the asset file explicitly.
    ExplicitFile(String),
    /// The asset directory holds a file sharing the descriptor's base name.
    InferredFile(String),
}

/// Decides where a descriptor's binary asset comes from: a descriptor whose
/// `"image"` field is already non-empty is already published; otherwise an
/// explicitly supplied asset file takes precedence over inference from the
/// directory listing.
pub fn choose_asset_source(
    d: &Descriptor,
    explicit: Option<&String>,
    descriptor_file: &str,
    listing: Option<&Vec<String>>,
) -> (r: Result<AssetSource, PipelineError>)
    ensures
        d.is_published() ==> r == Ok::<AssetSource, PipelineError>(AssetSource::AlreadyPublished),
        !d.is_published() ==> (match explicit {
            Some(p) => r == Ok::<AssetSource, PipelineError>(AssetSource::ExplicitFile(*p)),
            None => (match listing {
                Some(fs) => (match resolved_asset(stem_of(descriptor_file@), fs@) {
                    Some(a) => r matches Ok(AssetSource::InferredFile(f)) && f@ == a,
                    None => r == Err::<AssetSource, PipelineError>(
                        PipelineError::Input(InputFault::AssetNotFound),
                    ),
                }),
                None => r == Err::<AssetSource, PipelineError>(
                    PipelineError::Input(InputFault::AssetNotFound),
                ),
            }),
        }),
{
    if d.has_published_image() {
        return Ok(AssetSource::AlreadyPublished);
    }
    match explicit {
        Some(p) => Ok(AssetSource::ExplicitFile(p.clone())),
        None => {
            match listing {
                Some(fs) => {
                    match find_image_for_json(descriptor_file, fs) {
                        Ok(f) => Ok(AssetSource::InferredFile(f)),
                        Err(e) => Err(e),
                    }
                },
                None => Err(PipelineError::Input(InputFault::AssetNotFound)),
            }
        },
    }
}

/// Why one batch item was aborted: the stage that failed and its underlying
/// error.
#[derive(Debug, Clone, PartialEq, Eq)]
pub struct ItemFailure {
    pub stage: PipelineStage,
    pub error: PipelineError,
}

/// The recorded outcome of one batch item: its sequential identifier, and
/// either the finalized descriptor locator or the failure that aborted it.
#[derive(Debug)]
pub struct ItemOutcome {
    pub item: u32,
    pub outcome: Result<String, ItemFailure>,
}

/// Where the batch stands between two events.
#[derive(Debug)]
pub enum BatchPhase {
    /// The collection-creation transaction is out.
    AwaitingCollection,
    /// The current item's descriptor file is being read.
    LoadingDescriptor { collection: u32 },
    /// The current item's binary asset is being pinned.
    AwaitingAssetPin { collection: u32, descriptor: Descriptor },
    /// The current item's serialized descriptor is being pinned.
    AwaitingDescriptorPin { collection: u32 },
    /// The current item's mint transaction is out.
    AwaitingMint { collection: u32, locator: String },
    /// The current item's metadata transaction is out.
    AwaitingMetadata { collection: u32, locator: String },
    /// Every descriptor has an outcome.
    Complete,
    /// Collection creation failed: fatal to the whole batch.
    CollectionFailed { error: PipelineError },
}

/// The next piece of outside work the batch asks its driver to perform. The
/// driver performs it and reports back through the matching `*_concluded`
/// call.
#[derive(Debug)]
pub enum BatchAction {
    /// Submit the collection-creation transaction and report its concluded
    /// outcome.
    CreateCollection,
    /// Read the named descriptor file, parse it, and report the descriptor.
    ReadDescriptor { name: String },
    /// Read the named asset file and pin its bytes, reporting the locator.
    PinAssetFile { name: String },
    /// Pin the given serialized descriptor, reporting the locator.
    PinPayload { payload: Vec<u8> },
    /// Submit the mint transaction of the given item and report its concluded
    /// outcome.
    SubmitMint { collection: u32, item: u32 },
    /// Submit the metadata transaction of the given item and report its
    /// concluded outcome. The payload is the item's locator as bytes; the
    /// chain bounds metadata to its own maximum length, so the driver's
    /// chain client encodes the payload into the bounded on-chain form and
    /// reports a too-long locator as a rejected transaction.
    SubmitMetadata { collection: u32, item: u32, payload: Vec<u8> },
    /// Nothing is left to do.
    Finished,
}

/// Sequences the publication of every descriptor in a directory: one
/// preceding collection-creation transaction, then, descriptor by descriptor
/// in listing order, pinning and minting with sequential item identifiers
/// starting at zero. One item's failure aborts only that item; the batch goes
/// on.
pub struct BatchOrchestrator {
    descriptors: Vec<String>,
    assets: Option<Vec<String>>,
    phase: BatchPhase,
    outcomes: Vec<ItemOutcome>,
}

impl BatchOrchestrator {
    /// The descriptor file names, in directory-listing order.
    pub closed spec fn descriptor_names(self) -> Seq<String> {
        self.descriptors@
    }

    /// The configured asset directory listing, if one was supplied.
    pub closed spec fn asset_listing(self) -> Option<Vec<String>> {
        self.assets
    }

    /// Where the batch stands.
    pub closed spec fn phase(self) -> BatchPhase {
        self.phase
    }

    /// The outcomes recorded so far, one per finished item.
    pub closed spec fn recorded(self) -> Seq<ItemOutcome> {
        self.outcomes@
    }

    /// Whether the batch is working on one item.
    pub open spec fn in_item_phase(self) -> bool {
        ||| self.phase() is LoadingDescriptor
        ||| self.phase() is AwaitingAssetPin
        ||| self.phase() is AwaitingDescriptorPin
        ||| self.phase() is AwaitingMint
        ||| self.phase() is AwaitingMetadata
    }

    /// Well-formedness, preserved by every step: outcomes carry the
    /// sequential identifiers 0, 1, 2, ... in order, there is at most one
    /// outcome per descriptor, and the phase agrees with how many items are
    /// done.
    pub open spec fn wf(self) -> bool {
        &&& self.descriptor_names().len() <= u32::MAX
        &&& self.recorded().len() <= self.descriptor_names().len()
        &&& (forall|i: int|
            0 <= i < self.recorded().len() ==> self.recorded()[i].item == i as u32)
        &&& (self.in_item_phase() ==> self.recorded().len() < self.descriptor_names().len())
        &&& (self.phase() is Complete ==> self.recorded().len() == self.descriptor_names().len())
        &&& (self.phase() is AwaitingCollection ==> self.recorded().len() == 0)
    }

    /// The identifier the current item will be recorded under.
    pub open spec fn current_item(self) -> int {
        self.recorded().len() as int
    }

    /// Relation between the state before and after one item is concluded:
    /// exactly one outcome is appended, under the next sequential identifier,
    /// earlier outcomes are untouched, and the batch moves on to the next
    /// descriptor, or completes when none is left.
    pub open spec fn spec_moved_on(
        pre: BatchOrchestrator,
        post: BatchOrchestrator,
        act: BatchAction,
        collection: u32,
    ) -> bool {
        &&& post.descriptor_names() == pre.descriptor_names()
        &&& post.asset_listing() == pre.asset_listing()
        &&& post.recorded().len() == pre.recorded().len() + 1
        &&& post.recorded().subrange(0, pre.recorded().len() as int) == pre.recorded()
        &&& post.recorded().last().item == pre.current_item() as u32
        &&& if pre.current_item() + 1 < pre.descriptor_names().len() {
            &&& post.phase() == (BatchPhase::LoadingDescriptor { collection })
            &&& act matches BatchAction::ReadDescriptor { name } && name@
                == pre.descriptor_names()[pre.current_item() + 1]@
        } else {
            &&& post.phase() is Complete
            &&& act is Finished
        }
    }

    /// What every step of the batch driver guarantees, whichever event came
    /// in: outcomes only grow, a mint submission always carries the
    /// identifier the current item will be recorded under, and an item whose
    /// mint has gone out is recorded before the batch takes up another item.
    pub open spec fn spec_batch_step(
        pre: BatchOrchestrator,
        post: BatchOrchestrator,
        act: BatchAction,
    ) -> bool {
        &&& pre.recorded().len() <= post.recorded().len()
        &&& (act matches BatchAction::SubmitMint { collection, item } ==> {
            &&& item as int == pre.current_item()
            &&& pre.phase() is AwaitingDescriptorPin
            &&& post.phase() is AwaitingMint
            &&& post.recorded().len() == pre.recorded().len()
        })
        &&& ((pre.phase() is AwaitingMint || pre.phase() is AwaitingMetadata) ==> (
        post.recorded().len() > pre.recorded().len() || post.phase() is AwaitingMint
            || post.phase() is AwaitingMetadata))
    }

    /// A lower bound on the identifier any future mint submission can carry:
    /// the items already recorded, plus the current item once its own mint
    /// has gone out.
    pub open spec fn spec_min_next_mint(s: BatchOrchestrator) -> int {
        s.recorded().len() + if s.phase() is AwaitingMint || s.phase() is AwaitingMetadata {
            1int
        } else {
            0int
        }
    }

    /// One driver step never lowers the bound, and a mint submission pushes
    /// the bound strictly past the identifier it carries.
    pub proof fn lemma_step_mint_bound(
        pre: BatchOrchestrator,
        post: BatchOrchestrator,
        act: BatchAction,
    )
        requires
            BatchOrchestrator::spec_batch_step(pre, post, act),
        ensures
            BatchOrchestrator::spec_min_next_mint(post) >= BatchOrchestrator::spec_min_next_mint(
                pre,
            ),
            act matches BatchAction::SubmitMint { collection, item } ==> (item as int
                == BatchOrchestrator::spec_min_next_mint(pre)
                && BatchOrchestrator::spec_min_next_mint(post) > item as int),
    {
    }

    /// A run of the batch driver: a sequence of states whose consecutive
    /// pairs each arose from one step, with the action that step returned.
    pub open spec fn spec_batch_trace(
        states: Seq<BatchOrchestrator>,
        acts: Seq<BatchAction>,
    ) -> bool {
        &&& states.len() == acts.len() + 1
        &&& (forall|i: int|
            0 <= i < acts.len() ==> BatchOrchestrator::spec_batch_step(
                states[i],
                states[i + 1],
                #[trigger] acts[i],
            ))
    }

    /// Along a run, the bound on future mint identifiers never falls.
    proof fn lemma_trace_mint_bound(
        states: Seq<BatchOrchestrator>,
        acts: Seq<BatchAction>,
        i: int,
        j: int,
    )
        requires
            BatchOrchestrator::spec_batch_trace(states, acts),
            0 <= i <= j < states.len(),
        ensures
            BatchOrchestrator::spec_min_next_mint(states[j])
                >= BatchOrchestrator::spec_min_next_mint(states[i]),
        decreases j - i,
    {
        if i < j {
            BatchOrchestrator::lemma_trace_mint_bound(states, acts, i, j - 1);
            BatchOrchestrator::lemma_step_mint_bound(states[j - 1], states[j], acts[j - 1]);
        }
    }

    /// Exactly-once minting: in any run of the batch driver, no two mint
    /// submissions carry the same item identifier — every later submission
    /// carries a strictly larger one.
    pub proof fn lemma_mint_ids_never_repeat(
        states: Seq<BatchOrchestrator>,
        acts: Seq<BatchAction>,
        i: int,
        j: int,
    )
        requires
            BatchOrchestrator::spec_batch_trace(states, acts),
            0 <= i < j < acts.len(),
        ensures
            acts[i] matches BatchAction::SubmitMint { collection: c1, item: a } ==> (acts[j]
                matches BatchAction::SubmitMint { collection: c2, item: b } ==> a < b),
    {
        BatchOrchestrator::lemma_step_mint_bound(states[i], states[i + 1], acts[i]);
        BatchOrchestrator::lemma_trace_mint_bound(states, acts, i + 1, j);
        BatchOrchestrator::lemma_step_mint_bound(states[j], states[j + 1], acts[j]);
    }

    /// `spec_moved_on`, with the appended outcome entry given exactly.
    pub open spec fn spec_recorded_and_moved_on(
        pre: BatchOrchestrator,
        post: BatchOrchestrator,
        act: BatchAction,
        collection: u32,
        entry: Result<String, ItemFailure>,
    ) -> bool {
        &&& BatchOrchestrator::spec_moved_on(pre, post, act, collection)
        &&& post.recorded().last().outcome == entry
    }

    /// Starts a batch over the given descriptor files (in listing order) and
    /// optional asset directory listing. The first action is the one
    /// collection-creation transaction, which must finalize successfully
    /// before any item begins.
    pub fn new(descriptors: Vec<String>, assets: Option<Vec<String>>) -> (r: (
        BatchOrchestrator,
        BatchAction,
    ))
        requires
            descriptors@.len() <= u32::MAX,
        ensures
            r.0.wf(),
            r.0.phase() is AwaitingCollection,
            r.0.descriptor_names() == descriptors@,
            r.0.asset_listing() == assets,
            r.0.recorded().len() == 0,
            r.1 is CreateCollection,
    {
        (
            BatchOrchestrator {
                descriptors,
                assets,
                phase: BatchPhase::AwaitingCollection,
                outcomes: Vec::new(),
            },
            BatchAction::CreateCollection,
        )
    }

    /// Appends the current item's outcome and moves to the next descriptor,
    /// or completes the batch when none is left.
    fn record_and_move_on(&mut self, collection: u32, entry: Result<String, ItemFailure>) -> (act:
        BatchAction)
        requires
            old(self).descriptor_names().len() <= u32::MAX,
            old(self).recorded().len() < old(self).descriptor_names().len(),
            forall|i: int|
                0 <= i < old(self).recorded().len() ==> old(self).recorded()[i].item == i as u32,
        ensures
            final(self).wf(),
            BatchOrchestrator::spec_recorded_and_moved_on(
                *old(self),
                *final(self),
                act,
                collection,
                entry,
            ),
    {
        proof {
            assert(self.recorded().len() < self.descriptor_names().len());
            assert(self.descriptor_names().len() <= u32::MAX);
        }
        let item: u32 = self.outcomes.len() as u32;
        self.outcomes.push(ItemOutcome { item, outcome: entry });
        proof {
            let pre = old(self).outcomes@;
            assert(self.outcomes@.subrange(0, pre.len() as int) =~= pre);
            assert(forall|i: int|
                0 <= i < self.outcomes@.len() ==> self.outcomes@[i].item == i as u32);
        }
        if self.outcomes.len() < self.descriptors.len() {
            let name = self.descriptors[self.outcomes.len()].clone();
            self.phase = BatchPhase::LoadingDescriptor { collection };
            BatchAction::ReadDescriptor { name }
        } else {
            self.phase = BatchPhase::Complete;
            BatchAction::Finished
        }
    }

    /// Feeds in the concluded outcome of the collection-creation
    /// transaction. Success opens the item sequence (or completes an empty
    /// batch); any failure is fatal to the whole batch, since there is no
    /// collection context to mint into.
    pub fn collection_concluded(&mut self, outcome: Result<ChainEvent, PipelineError>) -> (act:
        BatchAction)
        requires
            old(self).wf(),
            old(self).phase() is AwaitingCollection,
        ensures
            final(self).wf(),
            final(self).descriptor_names() == old(self).descriptor_names(),
            final(self).asset_listing() == old(self).asset_listing(),
            final(self).recorded() == old(self).recorded(),
            BatchOrchestrator::spec_batch_step(*old(self), *final(self), act),
            outcome matches Ok(ChainEvent::Created { collection }) ==> (
            if old(self).descriptor_names().len() == 0 {
                final(self).phase() is Complete && act is Finished
            } else {
                final(self).phase() == (BatchPhase::LoadingDescriptor { collection }) && (
                act matches BatchAction::ReadDescriptor { name } && name@ == old(
                    self,
                ).descriptor_names()[0]@)
            }),
            (match outcome {
                Ok(e) => !(e is Created),
                Err(_) => false,
            }) ==> final(self).phase() == (BatchPhase::CollectionFailed {
                error: PipelineError::ExpectedEventMissing,
            }) && act is Finished,
            outcome matches Err(e) ==> final(self).phase() == (BatchPhase::CollectionFailed {
                error: e,
            }) && act is Finished,
    {
        match outcome {
            Ok(ChainEvent::Created { collection }) => {
                if self.descriptors.len() == 0 {
                    self.phase = BatchPhase::Complete;
                    BatchAction::Finished
                } else {
                    let name = self.descriptors[0].clone();
                    self.phase = BatchPhase::LoadingDescriptor { collection };
                    BatchAction::ReadDescriptor { name }
                }
            },
            Ok(_) => {
                self.phase = BatchPhase::CollectionFailed {
                    error: PipelineError::ExpectedEventMissing,
                };
                BatchAction::Finished
            },
            Err(e) => {
                self.phase = BatchPhase::CollectionFailed { error: e };
                BatchAction::Finished
            },
        }
    }

    /// Feeds in the current item's loaded descriptor (or the error that
    /// loading produced). A descriptor already carrying a non-empty locator
    /// skips asset pinning entirely and goes straight to the pinning of its
    /// own serialized form; otherwise the asset directory listing is
    /// consulted. A failure aborts only this item.
    pub fn descriptor_concluded(&mut self, loaded: Result<Descriptor, PipelineError>) -> (act:
        BatchAction)
        requires
            old(self).wf(),
            old(self).phase() is LoadingDescriptor,
        ensures
            final(self).wf(),
            final(self).descriptor_names() == old(self).descriptor_names(),
            final(self).asset_listing() == old(self).asset_listing(),
            BatchOrchestrator::spec_batch_step(*old(self), *final(self), act),
            old(self).phase() matches BatchPhase::LoadingDescriptor { collection } ==> {
                match loaded {
                    Ok(d) => {
                        if d.is_published() {
                            &&& act matches BatchAction::PinPayload { payload } && payload@
                                == serial_of(d.document())
                            &&& final(self).phase() == (BatchPhase::AwaitingDescriptorPin {
                                collection,
                            })
                            &&& final(self).recorded() == old(self).recorded()
                        } else {
                            match old(self).asset_listing() {
                                Some(fs) => (match resolved_asset(
                                    stem_of(
                                        old(self).descriptor_names()[old(self).current_item()]@,
                                    ),
                                    fs@,
                                ) {
                                    Some(a) => {
                                        &&& act matches BatchAction::PinAssetFile { name } && name@
                                            == a
                                        &&& final(self).phase() == (BatchPhase::AwaitingAssetPin {
                                            collection,
                                            descriptor: d,
                                        })
                                        &&& final(self).recorded() == old(self).recorded()
                                    },
                                    None => BatchOrchestrator::spec_recorded_and_moved_on(
                                        *old(self),
                                        *final(self),
                                        act,
                                        collection,
                                        Err(
                                            ItemFailure {
                                                stage: PipelineStage::Linking,
                                                error: PipelineError::Input(
                                                    InputFault::AssetNotFound,
                                                ),
                                            },
                                        ),
                                    ),
                                }),
                                None => BatchOrchestrator::spec_recorded_and_moved_on(
                                    *old(self),
                                    *final(self),
                                    act,
                                    collection,
                                    Err(
                                        ItemFailure {
                                            stage: PipelineStage::Linking,
                                            error: PipelineError::Input(InputFault::AssetNotFound),
                                        },
                                    ),
                                ),
                            }
                        }
                    },
                    Err(e) => BatchOrchestrator::spec_recorded_and_moved_on(
                        *old(self),
                        *final(self),
                        act,
                        collection,
                        Err(ItemFailure { stage: PipelineStage::Linking, error: e }),
                    ),
                }
            },
    {
        let collection: u32 = match &self.phase {
            BatchPhase::LoadingDescriptor { collection } => *collection,
            _ => 0,
        };
        match loaded {
            Ok(d) => {
                if d.has_published_image() {
                    let payload = d.to_bytes();
                    self.phase = BatchPhase::AwaitingDescriptorPin { collection };
                    BatchAction::PinPayload { payload }
                } else {
                    let idx: usize = self.outcomes.len();
                    let listing = self.assets.as_ref();
                    let source = match listing {
                        Some(fs) => find_image_for_json(self.descriptors[idx].as_str(), fs),
                        None => Err(PipelineError::Input(InputFault::AssetNotFound)),
                    };
                    match source {
                        Ok(name) => {
                            self.phase = BatchPhase::AwaitingAssetPin { collection, descriptor: d };
                            BatchAction::PinAssetFile { name }
                        },
                        Err(_) => self.record_and_move_on(
                            collection,
                            Err(
                                ItemFailure {
                                    stage: PipelineStage::Linking,
                                    error: PipelineError::Input(InputFault::AssetNotFound),
                                },
                            ),
                        ),
                    }
                }
            },
            Err(e) => self.record_and_move_on(
                collection,
                Err(ItemFailure { stage: PipelineStage::Linking, error: e }),
            ),
        }
    }

    /// Feeds in the outcome of the pin the batch is waiting on. After a
    /// successful asset pin the locator is written into the descriptor's
    /// `"image"` field and the updated descriptor is serialized and pinned in
    /// turn; after a successful descriptor pin the item's mint transaction
    /// goes out. A pinning failure aborts only this item.
    pub fn pin_concluded(&mut self, outcome: Result<String, PipelineError>) -> (act: BatchAction)
        requires
            old(self).wf(),
            old(self).phase() is AwaitingAssetPin || old(self).phase() is AwaitingDescriptorPin,
        ensures
            final(self).wf(),
            final(self).descriptor_names() == old(self).descriptor_names(),
            final(self).asset_listing() == old(self).asset_listing(),
            BatchOrchestrator::spec_batch_step(*old(self), *final(self), act),
            old(self).phase() matches BatchPhase::AwaitingAssetPin { collection, descriptor } ==> {
                match outcome {
                    Ok(loc) => {
                        &&& act matches BatchAction::PinPayload { payload } && (exists|
                            m: serde_json::Map<String, serde_json::Value>,
                        |
                            payload@ == serial_of(m) && fields_image_text(m) == Some(loc@))
                        &&& final(self).phase() == (BatchPhase::AwaitingDescriptorPin {
                            collection,
                        })
                        &&& final(self).recorded() == old(self).recorded()
                    },
                    Err(e) => BatchOrchestrator::spec_recorded_and_moved_on(
                        *old(self),
                        *final(self),
                        act,
                        collection,
                        Err(ItemFailure { stage: PipelineStage::Pinning, error: e }),
                    ),
                }
            },
            old(self).phase() matches BatchPhase::AwaitingDescriptorPin { collection } ==> {
                match outcome {
                    Ok(loc) => {
                        &&& final(self).phase() == (BatchPhase::AwaitingMint {
                            collection,
                            locator: loc,
                        })
                        &&& act == (BatchAction::SubmitMint {
                            collection,
                            item: old(self).current_item() as u32,
                        })
                        &&& final(self).recorded() == old(self).recorded()
                    },
                    Err(e) => BatchOrchestrator::spec_recorded_and_moved_on(
                        *old(self),
                        *final(self),
                        act,
                        collection,
                        Err(ItemFailure { stage: PipelineStage::Pinning, error: e }),
                    ),
                }
            },
    {
        let mut ph = BatchPhase::Complete;
        core::mem::swap(&mut ph, &mut self.phase);
        match ph {
            BatchPhase::AwaitingAssetPin { collection, descriptor } => {
                match outcome {
                    Ok(loc) => {
                        let ghost locator_text = loc@;
                        let mut d = descriptor;
                        d.set_image_locator(loc);
                        let payload = d.to_bytes();
                        proof {
                            assert(fields_image_text(d.document()) == Some(locator_text));
                            assert(payload@ == serial_of(d.document()) && fields_image_text(
                                d.document(),
                            ) == Some(locator_text));
                        }
                        self.phase = BatchPhase::AwaitingDescriptorPin { collection };
                        BatchAction::PinPayload { payload }
                    },
                    Err(e) => self.record_and_move_on(
                        collection,
                        Err(ItemFailure { stage: PipelineStage::Pinning, error: e }),
                    ),
                }
            },
            BatchPhase::AwaitingDescriptorPin { collection } => {
                match outcome {
                    Ok(loc) => {
                        proof {
                            assert(self.outcomes@.len() <= u32::MAX);
                        }
                        let item: u32 = self.outcomes.len() as u32;
                        self.phase = BatchPhase::AwaitingMint { collection, locator: loc };
                        BatchAction::SubmitMint { collection, item }
                    },
                    Err(e) => self.record_and_move_on(
                        collection,
                        Err(ItemFailure { stage: PipelineStage::Pinning, error: e }),
                    ),
                }
            },
            _ => {
                self.phase = BatchPhase::Complete;
                BatchAction::Finished
            },
        }
    }

    /// Feeds in the concluded outcome of the current item's mint transaction.
    /// Success sends the item's metadata transaction, carrying the pinned
    /// descriptor's locator bytes; a failure aborts only this item, and the
    /// batch continues with the next descriptor.
    pub fn mint_concluded(&mut self, outcome: Result<ChainEvent, PipelineError>) -> (act:
        BatchAction)
        requires
            old(self).wf(),
            old(self).phase() is AwaitingMint,
        ensures
            final(self).wf(),
            final(self).descriptor_names() == old(self).descriptor_names(),
            final(self).asset_listing() == old(self).asset_listing(),
            BatchOrchestrator::spec_batch_step(*old(self), *final(self), act),
            old(self).phase() matches BatchPhase::AwaitingMint { collection, locator } ==> {
                match outcome {
                    Ok(_) => {
                        &&& final(self).phase() == (BatchPhase::AwaitingMetadata {
                            collection,
                            locator,
                        })
                        &&& (act matches BatchAction::SubmitMetadata { collection: c, item, payload }
                            && c == collection && item == old(self).current_item() as u32
                            && payload@ == encode_utf8(locator@))
                        &&& final(self).recorded() == old(self).recorded()
                    },
                    Err(e) => BatchOrchestrator::spec_recorded_and_moved_on(
                        *old(self),
                        *final(self),
                        act,
                        collection,
                        Err(ItemFailure { stage: PipelineStage::Submission, error: e }),
                    ),
                }
            },
    {
        let mut ph = BatchPhase::Complete;
        core::mem::swap(&mut ph, &mut self.phase);
        match ph {
            BatchPhase::AwaitingMint { collection, locator } => {
                match outcome {
                    Ok(_) => {
                        let payload = vstd::slice::slice_to_vec(locator.as_str().as_bytes());
                        proof {
                            assert(self.outcomes@.len() <= u32::MAX);
                        }
                        let item: u32 = self.outcomes.len() as u32;
                        self.phase = BatchPhase::AwaitingMetadata { collection, locator };
                        BatchAction::SubmitMetadata { collection, item, payload }
                    },
                    Err(e) => self.record_and_move_on(
                        collection,
                        Err(ItemFailure { stage: PipelineStage::Submission, error: e }),
                    ),
                }
            },
            _ => {
                self.phase = BatchPhase::Complete;
                BatchAction::Finished
            },
        }
    }

    /// Feeds in the concluded outcome of the current item's metadata
    /// transaction, recording the item as published under its locator on
    /// success, or as aborted at the submission stage on failure; either way
    /// the batch continues with the next descriptor.
    pub fn metadata_concluded(&mut self, outcome: Result<(), PipelineError>) -> (act: BatchAction)
        requires
            old(self).wf(),
            old(self).phase() is AwaitingMetadata,
        ensures
            final(self).wf(),
            final(self).descriptor_names() == old(self).descriptor_names(),
            final(self).asset_listing() == old(self).asset_listing(),
            BatchOrchestrator::spec_batch_step(*old(self), *final(self), act),
            old(self).phase() matches BatchPhase::AwaitingMetadata { collection, locator } ==> {
                match outcome {
                    Ok(_) => BatchOrchestrator::spec_recorded_and_moved_on(
                        *old(self),
                        *final(self),
                        act,
                        collection,
                        Ok(locator),
                    ),
                    Err(e) => BatchOrchestrator::spec_recorded_and_moved_on(
                        *old(self),
                        *final(self),
                        act,
                        collection,
                        Err(ItemFailure { stage: PipelineStage::Submission, error: e }),
                    ),
                }
            },
    {
        let mut ph = BatchPhase::Complete;
        core::mem::swap(&mut ph, &mut self.phase);
        match ph {
            BatchPhase::AwaitingMetadata { collection, locator } => {
                match outcome {
                    Ok(_) => self.record_and_move_on(collection, Ok(locator)),
                    Err(e) => self.record_and_move_on(
                        collection,
                        Err(ItemFailure { stage: PipelineStage::Submission, error: e }),
                    ),
                }
            },
            _ => {
                self.phase = BatchPhase::Complete;
                BatchAction::Finished
            },
        }
    }

    /// The outcomes recorded so far, one per finished item, in item order.
    pub fn results(&self) -> (r: &Vec<ItemOutcome>)
        ensures
            r@ == self.recorded(),
    {
        &self.outcomes
    }

    /// Whether every descriptor has an outcome.
    pub fn is_complete(&self) -> (r: bool)
        ensures
            r == (self.phase() is Complete),
    {
        matches!(self.phase, BatchPhase::Complete)
    }

    /// Item identifiers never repeat: the recorded outcomes carry the
    /// sequential identifiers 0, 1, 2, ..., so no two outcomes (and hence no
    /// two mint submissions that produced them) share an identifier.
    pub proof fn lemma_distinct_item_ids(self, i: int, j: int)
        requires
            self.wf(),
            0 <= i < j < self.recorded().len(),
        ensures
            self.recorded()[i].item != self.recorded()[j].item,
    {
    }

    /// The error that ended the whole batch before any item began, if
    /// collection creation failed.
    pub fn fatal_error(&self) -> (r: Option<&PipelineError>)
        ensures
            self.phase() matches BatchPhase::CollectionFailed { error } ==> (r matches Some(e)
                && *e == error),
            !(self.phase() is CollectionFailed) ==> r is None,
    {
        match &self.phase {
            BatchPhase::CollectionFailed { error } => Some(error),
            _ => None,
        }
    }
}

} // verus!
