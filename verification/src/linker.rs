use vstd::prelude::*;
use vstd::string::StrSliceExecFns;

use crate::error::{InputFault, PipelineError};
use crate::text::str_concat;

verus! {

/// Length of the base name of a file name: everything before the last `'.'`
/// standing at position 1 or later. A name without such a separator (or with
/// a `'.'` only at the front, as in a hidden file) is its own base name.
pub open spec fn stem_len(s: Seq<char>) -> int
    decreases s.len(),
{
    if s.len() <= 1 {
        s.len() as int
    } else if s[s.len() - 1] == '.' {
        s.len() - 1
    } else {
        let inner = stem_len(s.drop_last());
        if inner == s.len() - 1 {
            s.len() as int
        } else {
            inner
        }
    }
}

/// The base name of a file name.
pub open spec fn stem_of(s: Seq<char>) -> Seq<char> {
    s.take(stem_len(s))
}

/// `stem_len` marks the last `'.'` at position 1 or later, or the whole name
/// when there is none.
pub proof fn lemma_stem_len(s: Seq<char>)
    ensures
        0 <= stem_len(s) <= s.len(),
        stem_len(s) < s.len() ==> 1 <= stem_len(s) && s[stem_len(s)] == '.' && (forall|k: int|
            stem_len(s) < k < s.len() ==> s[k] != '.'),
        (forall|k: int| 1 <= k < s.len() ==> s[k] != '.') <==> stem_len(s) == s.len(),
    decreases s.len(),
{
    if s.len() <= 1 {
    } else if s[s.len() - 1] == '.' {
    } else {
        let t = s.drop_last();
        lemma_stem_len(t);
        assert(forall|k: int| 0 <= k < t.len() ==> t[k] == s[k]);
    }
}

/// Whether the directory listing holds a file of the given name.
pub open spec fn listing_has(files: Seq<String>, name: Seq<char>) -> bool {
    exists|i: int| 0 <= i < files.len() && files[i]@ == name
}

/// The asset file that a descriptor's base name resolves to in a directory
/// listing: the candidate extensions `jpg`, `jpeg`, `png` are tried in that
/// order, and the first existing match wins.
pub open spec fn resolved_asset(stem: Seq<char>, files: Seq<String>) -> Option<Seq<char>> {
    if listing_has(files, stem + ".jpg"@) {
        Some(stem + ".jpg"@)
    } else if listing_has(files, stem + ".jpeg"@) {
        Some(stem + ".jpeg"@)
    } else if listing_has(files, stem + ".png"@) {
        Some(stem + ".png"@)
    } else {
        None
    }
}

/// The base name of a file name: `"item.json"` yields `"item"`.
pub fn file_stem(name: &str) -> (r: &str)
    ensures
        r@ == stem_of(name@),
{
    let n: usize = name.unicode_len();
    let mut j: usize = n;
    while j > 1
        invariant
            j <= n,
            n == name@.len(),
            forall|k: int| j <= k < n ==> name@[k] != '.',
        decreases j,
    {
        if name.get_char(j - 1) == '.' {
            proof {
                lemma_stem_len(name@);
                assert(stem_len(name@) == j - 1);
            }
            let r = name.substring_char(0, j - 1);
            proof {
                assert(r@ =~= stem_of(name@));
            }
            return r;
        }
        j = j - 1;
    }
    proof {
        lemma_stem_len(name@);
        assert(name@.take(n as int) =~= name@);
    }
    name
}

/// Whether the listing holds the given name.
fn listing_contains(files: &Vec<String>, target: &String) -> (r: bool)
    ensures
        r == listing_has(files@, target@),
{
    let mut i: usize = 0;
    while i < files.len()
        invariant
            i <= files@.len(),
            forall|j: int| 0 <= j < i ==> files@[j]@ != target@,
        decreases files@.len() - i,
    {
        if target.eq(&files[i]) {
            assert(files@[i as int]@ == target@);
            return true;
        }
        i = i + 1;
    }
    false
}

/// Resolves the binary asset matching a descriptor file inside a directory:
/// a file sharing the descriptor's base name, with extension `jpg`, `jpeg` or
/// `png`, tried in that order; the first existing match wins. When none
/// exists the resolution fails with the asset-not-found input fault.
pub fn find_image_for_json(json_name: &str, dir_files: &Vec<String>) -> (r: Result<
    String,
    PipelineError,
>)
    ensures
        resolved_asset(stem_of(json_name@), dir_files@) matches Some(a) ==> r matches Ok(f)
            && f@ == a,
        resolved_asset(stem_of(json_name@), dir_files@) is None ==> r == Err::<
            String,
            PipelineError,
        >(PipelineError::Input(InputFault::AssetNotFound)),
{
    let stem = file_stem(json_name);
    let jpg = str_concat(stem, ".jpg");
    if listing_contains(dir_files, &jpg) {
        return Ok(jpg);
    }
    let jpeg = str_concat(stem, ".jpeg");
    if listing_contains(dir_files, &jpeg) {
        return Ok(jpeg);
    }
    let png = str_concat(stem, ".png");
    if listing_contains(dir_files, &png) {
        return Ok(png);
    }
    Err(PipelineError::Input(InputFault::AssetNotFound))
}

/// Extension precedence: when the directory holds `stem.jpg`, resolution
/// selects `stem.jpg`, whatever else the directory holds.
pub proof fn lemma_jpg_precedence(stem: Seq<char>, files: Seq<String>)
    requires
        listing_has(files, stem + ".jpg"@),
    ensures
        resolved_asset(stem, files) == Some(stem + ".jpg"@),
{
}

/// A `stem.png` asset is selected when the directory holds neither
/// `stem.jpg` nor `stem.jpeg`.
pub proof fn lemma_png_fallback(stem: Seq<char>, files: Seq<String>)
    requires
        !listing_has(files, stem + ".jpg"@),
        !listing_has(files, stem + ".jpeg"@),
        listing_has(files, stem + ".png"@),
    ensures
        resolved_asset(stem, files) == Some(stem + ".png"@),
{
}

} // verus!
