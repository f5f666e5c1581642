use vstd::prelude::*;
use vstd::string::StrSliceExecFns;
use vstd::utf8::{decode_utf8, valid_utf8};

verus! {

/// The view of optional text: the character sequence it holds, if any.
pub open spec fn text_view(o: Option<String>) -> Option<Seq<char>> {
    match o {
        Some(s) => Some(s@),
        None => None,
    }
}

/// Joins two pieces of text.
///
/// Relies on std's `format!` macro: the result is the first piece followed by
/// the second.
#[verifier::external_body]
pub(crate) fn str_concat(a: &str, b: &str) -> (r: String)
    ensures
        r@ == a@ + b@,
{
    format!("{}{}", a, b)
}

/// Whether `prefix` is a prefix of `s`, character by character.
pub fn str_starts_with(s: &str, prefix: &str) -> (r: bool)
    ensures
        r == prefix@.is_prefix_of(s@),
{
    let n: usize = prefix.unicode_len();
    let m: usize = s.unicode_len();
    if n > m {
        return false;
    }
    let mut i: usize = 0;
    while i < n
        invariant
            i <= n,
            n <= m,
            n == prefix@.len(),
            m == s@.len(),
            forall|j: int| 0 <= j < i ==> s@[j] == prefix@[j],
        decreases n - i,
    {
        if s.get_char(i) != prefix.get_char(i) {
            proof {
                let k = i as int;
                assert(prefix@.is_prefix_of(s@) ==> s@.subrange(0, n as int)[k] == prefix@[k]);
            }
            return false;
        }
        i = i + 1;
    }
    proof {
        assert(s@.subrange(0, n as int) =~= prefix@);
    }
    true
}

/// Whether a piece of metadata text is a content locator of the
/// content-addressed network.
pub fn is_ipfs_link(data: &str) -> (r: bool)
    ensures
        r == "ipfs://"@.is_prefix_of(data@),
{
    str_starts_with(data, "ipfs://")
}

/// Rewrites a content locator into the public gateway URL that dereferences
/// it; text that is not a locator is returned unchanged.
pub fn ipfs_to_http_url(link: &str) -> (r: String)
    ensures
        "ipfs://"@.is_prefix_of(link@) ==> r@ == "https://ipfs.io/ipfs/"@ + link@.skip(7),
        !"ipfs://"@.is_prefix_of(link@) ==> r@ == link@,
{
    proof {
        reveal_strlit("ipfs://");
    }
    if str_starts_with(link, "ipfs://") {
        let rest = link.substring_char(7, link.unicode_len());
        str_concat("https://ipfs.io/ipfs/", rest)
    } else {
        link.to_owned()
    }
}

/// Decodes raw bytes as text, if they are well-formed.
///
/// Relies on std's `String::from_utf8`: it succeeds exactly on well-formed
/// UTF-8 input and returns its decoding.
#[verifier::external_body]
pub(crate) fn bytes_to_text(bytes: &[u8]) -> (r: Option<String>)
    ensures
        r is Some <==> valid_utf8(bytes@),
        r matches Some(s) ==> s@ == decode_utf8(bytes@),
{
    String::from_utf8(bytes.to_vec()).ok()
}

/// The text form of an on-chain metadata value, when it is well-formed text.
pub fn metadata_text(data: &Vec<u8>) -> (r: Option<String>)
    ensures
        r is Some <==> valid_utf8(data@),
        r matches Some(s) ==> s@ == decode_utf8(data@),
{
    bytes_to_text(data.as_slice())
}

} // verus!
