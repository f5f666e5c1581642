use vstd::prelude::*;

use crate::error::{InputFault, PipelineError};
use crate::text::text_view;

verus! {

#[verifier::external_type_specification]
#[verifier::external_body]
pub struct ExValue(serde_json::Value);

#[verifier::external_type_specification]
#[verifier::external_body]
#[verifier::reject_recursive_types(K)]
#[verifier::reject_recursive_types(V)]
pub struct ExMap<K, V>(serde_json::Map<K, V>);

/// Whether raw bytes spell a mapping document: a well-formed structured
/// document whose top level maps string keys to values.
pub uninterp spec fn object_doc_of(bytes: Seq<u8>) -> bool;

/// The text under the `"image"` key of the mapping document the bytes spell,
/// when the document has that key and it holds text.
pub uninterp spec fn image_text_of(bytes: Seq<u8>) -> Option<Seq<char>>;

/// The text under the `"image"` key of a parsed mapping, when the mapping has
/// that key and it holds text.
pub uninterp spec fn fields_image_text(
    fields: serde_json::Map<String, serde_json::Value>,
) -> Option<Seq<char>>;

/// The serialized form of a parsed mapping.
pub uninterp spec fn serial_of(fields: serde_json::Map<String, serde_json::Value>) -> Seq<u8>;

/// Parses raw bytes as a mapping document and reads its `"image"` field.
///
/// Relies on serde_json::from_slice, which succeeds exactly on a well-formed
/// document and whose result is a function of the bytes alone; on the parsed
/// value's variants to accept mappings only; and on serde_json::Map::get and
/// Value::as_str for the field. A rejection is rendered as text.
#[verifier::external_body]
fn parse_mapping(bytes: &[u8]) -> (r: Result<
    (serde_json::Map<String, serde_json::Value>, Option<String>),
    String,
>)
    ensures
        r is Ok <==> object_doc_of(bytes@),
        r matches Ok(p) ==> text_view(p.1) == image_text_of(bytes@) && fields_image_text(p.0)
            == image_text_of(bytes@),
{
    let doc: serde_json::Value = match serde_json::from_slice(bytes) {
        Ok(d) => d,
        Err(e) => return Err(e.to_string()),
    };
    match doc {
        serde_json::Value::Object(fields) => {
            let image = fields.get("image").and_then(serde_json::Value::as_str).map(str::to_owned);
            Ok((fields, image))
        },
        _ => Err("the document is not a mapping".to_owned()),
    }
}

/// Stores text under a key of a parsed mapping.
///
/// Relies on serde_json::Map::insert: the named entry now holds the given
/// text, and every other entry is untouched.
#[verifier::external_body]
fn fields_set_text(
    fields: &mut serde_json::Map<String, serde_json::Value>,
    key: &str,
    value: String,
)
    ensures
        key@ == "image"@ ==> fields_image_text(*final(fields)) == Some(value@),
        key@ != "image"@ ==> fields_image_text(*final(fields)) == fields_image_text(*old(fields)),
{
    fields.insert(key.to_owned(), serde_json::Value::String(value));
}

/// Serializes a parsed mapping.
///
/// Relies on serde_json::to_vec: the writer is a growable buffer and every
/// key of the mapping is text, so serialization succeeds, and the bytes are a
/// function of the mapping alone; whenever they spell a mapping document in
/// turn, that document's `"image"` text is the mapping's own.
#[verifier::external_body]
fn fields_to_bytes(fields: &serde_json::Map<String, serde_json::Value>) -> (r: Vec<u8>)
    ensures
        r@ == serial_of(*fields),
        object_doc_of(r@) ==> image_text_of(r@) == fields_image_text(*fields),
{
    serde_json::to_vec(fields).expect("serializing a string-keyed mapping cannot fail")
}

/// One metadata descriptor: a mapping document with a distinguished
/// `"image"` field holding the content locator of its binary asset, plus
/// arbitrary passthrough fields. The distinguished field is mirrored as a
/// plain value, so every decision about it is verified; the full mapping is
/// carried along for serialization, and the mirror is kept in step with it.
#[derive(Debug)]
pub struct Descriptor {
    image: Option<String>,
    fields: serde_json::Map<String, serde_json::Value>,
}

impl Descriptor {
    /// The full mapping document, passthrough fields included.
    pub closed spec fn document(self) -> serde_json::Map<String, serde_json::Value> {
        self.fields
    }

    /// The content locator stored under the document's `"image"` key, when
    /// that key holds text.
    pub closed spec fn image_locator(self) -> Option<String> {
        self.image
    }

    /// The mirrored `"image"` field agrees with the stored document. Loading
    /// and updating both establish this.
    pub open spec fn consistent(self) -> bool {
        text_view(self.image_locator()) == fields_image_text(self.document())
    }

    /// Whether the descriptor already carries a non-empty content locator,
    /// and is therefore treated as already published.
    pub open spec fn is_published(self) -> bool {
        self.image_locator() matches Some(s) && s@.len() > 0
    }

    /// Loads a descriptor from the raw bytes of its file: it loads exactly
    /// when the bytes spell a mapping document, and its `"image"` field is
    /// that document's; anything else is a malformed descriptor.
    pub fn from_bytes(bytes: &[u8]) -> (r: Result<Descriptor, PipelineError>)
        ensures
            r is Ok <==> object_doc_of(bytes@),
            r matches Ok(d) ==> text_view(d.image_locator()) == image_text_of(bytes@)
                && d.consistent(),
            r matches Err(e) ==> e matches PipelineError::Input(InputFault::MalformedDescriptor(_)),
    {
        match parse_mapping(bytes) {
            Ok((fields, image)) => Ok(Descriptor { image, fields }),
            Err(msg) => Err(PipelineError::Input(InputFault::MalformedDescriptor(msg))),
        }
    }

    /// Whether the `"image"` field is present and non-empty.
    pub fn has_published_image(&self) -> (b: bool)
        ensures
            b == self.is_published(),
    {
        match &self.image {
            Some(s) => !s.as_str().is_empty(),
            None => false,
        }
    }

    /// The `"image"` field as loaded or last written.
    pub fn image_text(&self) -> (r: &Option<String>)
        ensures
            *r == self.image_locator(),
    {
        &self.image
    }

    /// Writes a freshly issued content locator into the `"image"` field, of
    /// both the mirror and the stored document.
    pub fn set_image_locator(&mut self, locator: String)
        ensures
            final(self).image_locator() == Some(locator),
            final(self).is_published() <==> locator@.len() > 0,
            final(self).consistent(),
    {
        fields_set_text(&mut self.fields, "image", locator.clone());
        self.image = Some(locator);
    }

    /// Serializes the descriptor for pinning. Serialization cannot fail: a
    /// descriptor is a string-keyed mapping by construction. The bytes are
    /// the document's serialized form, and whenever they spell a mapping
    /// document in turn, its `"image"` text is the document's own.
    pub fn to_bytes(&self) -> (r: Vec<u8>)
        ensures
            r@ == serial_of(self.document()),
            object_doc_of(r@) ==> image_text_of(r@) == fields_image_text(self.document()),
    {
        fields_to_bytes(&self.fields)
    }
}

} // verus!
