use vstd::prelude::*;
use vstd::utf8::{decode_utf8, valid_utf8};

use crate::error::PipelineError;
use crate::text::{bytes_to_text, str_concat, text_view};

verus! {

/// The content hash the authenticated provider's reply carries: the
/// `IpfsHash` field of the reply document, when the reply parses and holds
/// one as text.
pub uninterp spec fn pinata_hash_of(body: Seq<u8>) -> Option<Seq<char>>;

/// Reads the content hash out of the authenticated provider's reply.
///
/// Relies on serde_json::from_slice, Value::get and Value::as_str: the result
/// is a function of the reply bytes alone.
#[verifier::external_body]
fn pinata_reply_hash(body: &[u8]) -> (r: Option<String>)
    ensures
        text_view(r) == pinata_hash_of(body@),
{
    let doc: serde_json::Value = serde_json::from_slice(body).ok()?;
    doc.get("IpfsHash").and_then(serde_json::Value::as_str).map(str::to_owned)
}

/// The provider policy of the pinning client, selected once at construction
/// and never re-decided per call.
#[derive(Debug, Clone, PartialEq, Eq)]
pub enum Provider {
    /// Authenticated multipart uploads carrying the configured credential.
    Authenticated { credential: String },
    /// The unauthenticated public fallback endpoint.
    Public,
}

/// Client of the content pinning network: plans one upload request per pin
/// call and interprets the provider's reply into a canonical content locator.
pub struct PinningClient {
    provider: Provider,
}

/// One planned upload: everything the transport needs in order to perform the
/// single HTTP call of one pin.
pub struct PinRequest {
    /// Endpoint to POST to.
    pub url: String,
    /// Bearer credential, for the authenticated provider only.
    pub bearer: Option<String>,
    /// Whether the payload travels as a multipart form (authenticated
    /// provider) or as the raw request body (public fallback).
    pub multipart: bool,
    /// The bytes to pin.
    pub payload: Vec<u8>,
}

/// What the transport observed of one upload: the HTTP status code and the
/// raw response body.
pub struct PinReply {
    pub status: u16,
    pub body: Vec<u8>,
}

/// Whether an HTTP status code signals success.
pub open spec fn spec_success_status(status: u16) -> bool {
    200 <= status < 300
}

/// Whether an HTTP status code signals success.
pub fn is_success_status(status: u16) -> (r: bool)
    ensures
        r == spec_success_status(status),
{
    200 <= status && status < 300
}

/// The canonical locator of a pinned piece of content, normalized from the
/// provider's bare hash.
pub fn ipfs_locator(hash: &str) -> (r: String)
    ensures
        r@ == "ipfs://"@ + hash@,
        "ipfs://"@.is_prefix_of(r@),
{
    let r = str_concat("ipfs://", hash);
    proof {
        assert(r@.subrange(0, "ipfs://"@.len() as int) =~= "ipfs://"@);
    }
    r
}

/// The provider's response body as text, for error reports; a body that is
/// not text is reported as empty.
fn reply_message(body: &Vec<u8>) -> (m: String)
    ensures
        valid_utf8(body@) ==> m@ == decode_utf8(body@),
        !valid_utf8(body@) ==> m@ == Seq::<char>::empty(),
{
    match bytes_to_text(body.as_slice()) {
        Some(s) => s,
        None => String::new(),
    }
}

impl PinningClient {
    /// The provider policy this client was built with.
    pub closed spec fn provider(self) -> Provider {
        self.provider
    }

    /// Builds a client: a configured credential selects the authenticated
    /// provider; its absence selects the public fallback.
    pub fn new(credential: Option<String>) -> (c: Self)
        ensures
            credential matches Some(t) ==> c.provider() == (Provider::Authenticated {
                credential: t,
            }),
            credential is None ==> c.provider() == Provider::Public,
    {
        match credential {
            Some(t) => PinningClient { provider: Provider::Authenticated { credential: t } },
            None => PinningClient { provider: Provider::Public },
        }
    }

    /// Plans the single upload request of one pin call: the authenticated
    /// provider receives a multipart form with the bearer credential; the
    /// public fallback receives the raw payload with no credential.
    pub fn plan_pin(&self, payload: Vec<u8>) -> (r: PinRequest)
        ensures
            r.payload == payload,
            self.provider() matches Provider::Authenticated { credential } ==> r.url@
                == "https://api.pinata.cloud/pinning/pinFileToIPFS"@ && r.bearer == Some(credential)
                && r.multipart,
            self.provider() is Public ==> r.url@ == "https://ipfs.io/ipfs"@ && r.bearer is None
                && !r.multipart,
    {
        match &self.provider {
            Provider::Authenticated { credential } => PinRequest {
                url: "https://api.pinata.cloud/pinning/pinFileToIPFS".to_owned(),
                bearer: Some(credential.clone()),
                multipart: true,
                payload,
            },
            Provider::Public => PinRequest {
                url: "https://ipfs.io/ipfs".to_owned(),
                bearer: None,
                multipart: false,
                payload,
            },
        }
    }

    /// Interprets the provider's reply to one upload. A non-success status is
    /// a provider error carrying the response body; a successful reply yields
    /// the canonical `ipfs://` locator of the pinned content.
    pub fn interpret_pin_reply(&self, reply: &PinReply) -> (r: Result<String, PipelineError>)
        ensures
            !spec_success_status(reply.status) ==> (r matches Err(e) && e matches
                PipelineError::PinningProvider(m) && (valid_utf8(reply.body@) ==> m@ == decode_utf8(
                reply.body@,
            )) && (!valid_utf8(reply.body@) ==> m@ == Seq::<char>::empty())),
            self.provider() is Authenticated && spec_success_status(reply.status) ==> (match
                pinata_hash_of(reply.body@) {
                Some(h) => r matches Ok(l) && l@ == "ipfs://"@ + h,
                None => r matches Err(e) && e matches PipelineError::PinningProvider(_),
            }),
            self.provider() is Public && spec_success_status(reply.status) && valid_utf8(
                reply.body@,
            ) ==> (r matches Ok(l) && l@ == "ipfs://"@ + decode_utf8(reply.body@)),
            self.provider() is Public && spec_success_status(reply.status) && !valid_utf8(
                reply.body@,
            ) ==> (r matches Err(e) && e matches PipelineError::PinningProvider(_)),
            r matches Ok(l) ==> "ipfs://"@.is_prefix_of(l@),
    {
        if !is_success_status(reply.status) {
            return Err(PipelineError::PinningProvider(reply_message(&reply.body)));
        }
        match &self.provider {
            Provider::Authenticated { credential: _ } => {
                finish_authenticated_pin(pinata_reply_hash(reply.body.as_slice()))
            },
            Provider::Public => {
                match bytes_to_text(reply.body.as_slice()) {
                    Some(hash) => Ok(ipfs_locator(hash.as_str())),
                    None => Err(
                        PipelineError::PinningProvider(
                            "the reply body is not text".to_owned(),
                        ),
                    ),
                }
            },
        }
    }
}

/// Finishing step of an authenticated pin whose upload succeeded: the reply
/// document must carry the content hash field; its absence is a provider
/// error.
pub fn finish_authenticated_pin(hash_field: Option<String>) -> (r: Result<String, PipelineError>)
    ensures
        hash_field matches Some(h) ==> (r matches Ok(l) && l@ == "ipfs://"@ + h@),
        hash_field is None ==> (r matches Err(e) && e matches PipelineError::PinningProvider(m)
            && m@ == "the reply carries no content hash"@),
{
    match hash_field {
        Some(h) => Ok(ipfs_locator(h.as_str())),
        None => Err(
            PipelineError::PinningProvider("the reply carries no content hash".to_owned()),
        ),
    }
}

} // verus!
