use vstd::prelude::*;

verus! {

/// Stage of the pipeline in which a batch item failed, reported with every
/// aborted item.
#[derive(Clone, Copy, Debug, PartialEq, Eq, Structural)]
pub enum PipelineStage {
    /// Loading the descriptor and resolving its binary asset.
    Linking,
    /// Uploading content to the pinning network.
    Pinning,
    /// Submitting and finalizing an on-chain transaction.
    Submission,
}

/// A fault in the asset / descriptor pairing handed to the pipeline.
#[derive(Clone, Debug, PartialEq, Eq)]
pub enum InputFault {
    /// Neither the descriptor nor the asset directory yields a binary asset.
    AssetNotFound,
    /// An asset was supplied without a descriptor; a descriptor is mandatory
    /// context for any asset.
    AmbiguousInput,
    /// The descriptor file does not parse as a structured document.
    MalformedDescriptor(String),
}

/// Errors of the publication and mint pipeline.
#[derive(Clone, Debug, PartialEq, Eq)]
pub enum PipelineError {
    /// Missing or ambiguous asset-descriptor pairing.
    Input(InputFault),
    /// The pinning provider answered with a non-success status; carries the
    /// response body.
    PinningProvider(String),
    /// Network-level failure contacting the pinning or chain endpoint.
    Transport(String),
    /// The transaction was refused before inclusion in a block.
    TransactionRejected(String),
    /// The transaction was included in a block but its execution failed.
    TransactionFailed(String),
    /// The transaction finalized successfully, yet the expected domain event
    /// was not observed: an ambiguous outcome, distinct from failure.
    ExpectedEventMissing,
    /// The watch stream ended before a finalized inclusion was observed.
    FinalizationTimeout,
}

/// A plain error carrying a message, kept for callers that only need text.
#[derive(Debug)]
pub struct CustomError(String);

impl View for CustomError {
    type V = Seq<char>;

    closed spec fn view(&self) -> Seq<char> {
        self.0@
    }
}

impl CustomError {
    /// The message this error carries.
    pub fn message(&self) -> (m: &str)
        ensures
            m@ == self@,
    {
        self.0.as_str()
    }
}

impl From<&str> for CustomError {
    fn from(s: &str) -> (r: Self)
        ensures
            r@ == s@,
    {
        CustomError(s.to_owned())
    }
}

impl vstd::std_specs::convert::FromSpecImpl<&str> for CustomError {
    open spec fn obeys_from_spec() -> bool {
        false
    }

    open spec fn from_spec(v: &str) -> Self {
        arbitrary()
    }
}

impl From<String> for CustomError {
    fn from(s: String) -> (r: Self)
        ensures
            r@ == s@,
    {
        CustomError(s)
    }
}

impl vstd::std_specs::convert::FromSpecImpl<String> for CustomError {
    open spec fn obeys_from_spec() -> bool {
        false
    }

    open spec fn from_spec(v: String) -> Self {
        arbitrary()
    }
}

} // verus!
