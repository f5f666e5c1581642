use vstd::prelude::*;
use vstd::string::StrSliceExecFns;

use crate::text::{str_concat, str_starts_with};

verus! {

/// The stored form of one configuration entry: `key = "value"`.
pub open spec fn spec_config_line(key: Seq<char>, value: Seq<char>) -> Seq<char> {
    key + " = \""@ + value + "\""@
}

/// Whether a value can be stored and read back verbatim: it holds no quote.
pub open spec fn quote_free(value: Seq<char>) -> bool {
    forall|i: int| 0 <= i < value.len() ==> value[i] != '"'
}

/// The views of a list of configuration lines.
pub open spec fn line_views(lines: Seq<String>) -> Seq<Seq<char>> {
    lines.map_values(|s: String| s@)
}

/// Whether some line starts with the key.
pub open spec fn has_prefixed(views: Seq<Seq<char>>, key: Seq<char>) -> bool {
    exists|i: int| 0 <= i < views.len() && key.is_prefix_of(views[i])
}

/// The first line starting with the key, if any.
pub open spec fn first_prefixed(views: Seq<Seq<char>>, key: Seq<char>) -> Option<Seq<char>>
    decreases views.len(),
{
    if views.len() == 0 {
        None
    } else if key.is_prefix_of(views[0]) {
        Some(views[0])
    } else {
        first_prefixed(views.skip(1), key)
    }
}

/// What storing a key does to the configuration text: every line starting
/// with the key is replaced by the entry's stored form; when no line starts
/// with it, the entry is appended.
pub open spec fn spec_config_set(views: Seq<Seq<char>>, key: Seq<char>, value: Seq<char>) -> Seq<
    Seq<char>,
> {
    if has_prefixed(views, key) {
        Seq::new(
            views.len(),
            |i: int|
                if key.is_prefix_of(views[i]) {
                    spec_config_line(key, value)
                } else {
                    views[i]
                },
        )
    } else {
        views.push(spec_config_line(key, value))
    }
}

/// What looking a key up reads out of the configuration text: the value of
/// the first line starting with the key, when that line has the stored form.
pub open spec fn spec_config_lookup(views: Seq<Seq<char>>, key: Seq<char>) -> Option<Seq<char>> {
    match first_prefixed(views, key) {
        Some(line) => if exists|v: Seq<char>| quote_free(v) && line == spec_config_line(key, v) {
            Some(choose|v: Seq<char>| quote_free(v) && line == spec_config_line(key, v))
        } else {
            None
        },
        None => None,
    }
}

/// Shape of the stored form: the key, then ` = "`, then the value, then a
/// closing quote.
pub proof fn lemma_config_line_parts(key: Seq<char>, v: Seq<char>)
    ensures
        spec_config_line(key, v).len() == key.len() + v.len() + 5,
        forall|i: int| 0 <= i < key.len() ==> spec_config_line(key, v)[i] == key[i],
        spec_config_line(key, v)[key.len() as int] == ' ',
        spec_config_line(key, v)[key.len() + 1int] == '=',
        spec_config_line(key, v)[key.len() + 2int] == ' ',
        spec_config_line(key, v)[key.len() + 3int] == '"',
        forall|j: int| 0 <= j < v.len() ==> spec_config_line(key, v)[key.len() + 4 + j] == v[j],
        spec_config_line(key, v)[key.len() + v.len() + 4int] == '"',
{
    reveal_strlit(" = \"");
    reveal_strlit("\"");
}

/// The stored form determines the value: one line spells at most one value.
pub proof fn lemma_config_value_unique(key: Seq<char>, v1: Seq<char>, v2: Seq<char>)
    requires
        spec_config_line(key, v1) == spec_config_line(key, v2),
    ensures
        v1 == v2,
{
    lemma_config_line_parts(key, v1);
    lemma_config_line_parts(key, v2);
    assert(v1.len() == v2.len());
    assert(v1 =~= v2);
}

/// Renders the stored form of one configuration entry.
pub fn render_config_line(key: &str, value: &str) -> (r: String)
    ensures
        r@ == spec_config_line(key@, value@),
{
    let r = str_concat(str_concat(str_concat(key, " = \"").as_str(), value).as_str(), "\"");
    proof {
        assert(r@ =~= spec_config_line(key@, value@));
    }
    r
}

/// Stores one entry in the configuration text, line by line: every line
/// starting with the key is replaced by the entry's stored form, and the
/// entry is appended when no line starts with the key.
pub fn config_set_line(lines: &Vec<String>, key: &str, value: &str) -> (r: Vec<String>)
    ensures
        line_views(r@) == spec_config_set(line_views(lines@), key@, value@),
{
    let formatted = render_config_line(key, value);
    let mut out: Vec<String> = Vec::new();
    let mut updated: bool = false;
    let mut i: usize = 0;
    while i < lines.len()
        invariant
            i <= lines@.len(),
            out@.len() == i,
            formatted@ == spec_config_line(key@, value@),
            updated == exists|j: int| 0 <= j < i && key@.is_prefix_of(lines@[j]@),
            forall|j: int|
                0 <= j < i ==> out@[j]@ == (if key@.is_prefix_of(lines@[j]@) {
                    spec_config_line(key@, value@)
                } else {
                    lines@[j]@
                }),
        decreases lines@.len() - i,
    {
        if str_starts_with(lines[i].as_str(), key) {
            out.push(formatted.clone());
            proof {
                assert(key@.is_prefix_of(lines@[i as int]@));
            }
            updated = true;
        } else {
            out.push(lines[i].clone());
        }
        i = i + 1;
    }
    proof {
        assert(forall|j: int| 0 <= j < lines@.len() ==> line_views(lines@)[j] == lines@[j]@);
    }
    if !updated {
        out.push(formatted);
        proof {
            assert(!has_prefixed(line_views(lines@), key@));
            assert(line_views(out@) =~= spec_config_set(line_views(lines@), key@, value@));
        }
    } else {
        proof {
            let w = choose|j: int| 0 <= j < lines@.len() && key@.is_prefix_of(lines@[j]@);
            assert(key@.is_prefix_of(line_views(lines@)[w]));
            assert(has_prefixed(line_views(lines@), key@));
            assert(line_views(out@) =~= spec_config_set(line_views(lines@), key@, value@));
        }
    }
    out
}

/// Reads the value stored under a well-formed line: the line must be exactly
/// the stored form of the key with a quote-free value.
fn parse_config_value(line: &str, key: &str) -> (r: Option<String>)
    requires
        key@.is_prefix_of(line@),
    ensures
        r matches Some(s) ==> quote_free(s@) && line@ == spec_config_line(key@, s@),
        r is None ==> forall|v: Seq<char>|
            quote_free(v) ==> line@ != spec_config_line(key@, v),
{
    proof {
        reveal_strlit(" = \"");
        reveal_strlit("\"");
    }
    let n: usize = line.unicode_len();
    let k: usize = key.unicode_len();
    proof {
        assert(key@.len() <= line@.len());
    }
    if n - k < 5 {
        proof {
            assert forall|v: Seq<char>| quote_free(v) implies line@ != spec_config_line(
                key@,
                v,
            ) by {
                lemma_config_line_parts(key@, v);
            }
        }
        return None;
    }
    if line.get_char(k) != ' ' || line.get_char(k + 1) != '=' || line.get_char(k + 2) != ' '
        || line.get_char(k + 3) != '"' || line.get_char(n - 1) != '"' {
        proof {
            assert forall|v: Seq<char>| quote_free(v) implies line@ != spec_config_line(
                key@,
                v,
            ) by {
                lemma_config_line_parts(key@, v);
            }
        }
        return None;
    }
    let mid = line.substring_char(k + 4, n - 1);
    let mut i: usize = 0;
    while i < n - 1 - (k + 4)
        invariant
            mid@ == line@.subrange(k + 4, n - 1),
            n == line@.len(),
            k == key@.len(),
            k + 5 <= n,
            i <= n - 1 - (k + 4),
            mid@.len() == n - 1 - (k + 4),
            forall|j: int| 0 <= j < i ==> mid@[j] != '"',
        decreases n - 1 - (k + 4) - i,
    {
        if mid.get_char(i) == '"' {
            proof {
                assert forall|v: Seq<char>| quote_free(v) implies line@ != spec_config_line(
                    key@,
                    v,
                ) by {
                    lemma_config_line_parts(key@, v);
                    if line@ == spec_config_line(key@, v) {
                        assert(v.len() == n - 1 - (k + 4));
                        assert(v[i as int] == line@[k + 4 + i]);
                        assert(v[i as int] == '"');
                    }
                }
            }
            return None;
        }
        i = i + 1;
    }
    proof {
        lemma_config_line_parts(key@, mid@);
        assert(line@ =~= spec_config_line(key@, mid@));
    }
    Some(mid.to_owned())
}

/// Looks a key up in the configuration text: the value of the first line
/// starting with the key, when that line is a well-formed stored entry.
pub fn config_lookup(lines: &Vec<String>, key: &str) -> (r: Option<String>)
    ensures
        r matches Some(s) ==> spec_config_lookup(line_views(lines@), key@) == Some(s@),
        r is None ==> spec_config_lookup(line_views(lines@), key@) is None,
{
    let views = Ghost(line_views(lines@));
    let mut i: usize = 0;
    proof {
        assert(views@.skip(0) =~= views@);
    }
    while i < lines.len()
        invariant
            i <= lines@.len(),
            views@ == line_views(lines@),
            views@.len() == lines@.len(),
            first_prefixed(views@, key@) == first_prefixed(views@.skip(i as int), key@),
            forall|j: int| 0 <= j < views@.len() ==> views@[j] == lines@[j]@,
        decreases lines@.len() - i,
    {
        if str_starts_with(lines[i].as_str(), key) {
            proof {
                assert(views@.skip(i as int)[0] == views@[i as int]);
                assert(first_prefixed(views@, key@) == Some(lines@[i as int]@));
            }
            let parsed = parse_config_value(lines[i].as_str(), key);
            proof {
                let line = lines@[i as int]@;
                match &parsed {
                    Some(s) => {
                        assert(quote_free(s@) && line == spec_config_line(key@, s@));
                        let c = choose|v: Seq<char>|
                            quote_free(v) && line == spec_config_line(key@, v);
                        lemma_config_value_unique(key@, c, s@);
                    },
                    None => {},
                }
            }
            return parsed;
        }
        proof {
            assert(views@.skip(i as int)[0] == views@[i as int]);
            assert(views@.skip(i as int).skip(1) =~= views@.skip(i as int + 1));
        }
        i = i + 1;
    }
    proof {
        assert(views@.skip(i as int).len() == 0);
    }
    None
}

/// Round trip: after one entry is stored, looking its key up finds exactly
/// the stored value, whatever the configuration text held before.
pub proof fn lemma_config_round_trip(views: Seq<Seq<char>>, key: Seq<char>, value: Seq<char>)
    requires
        quote_free(value),
    ensures
        spec_config_lookup(spec_config_set(views, key, value), key) == Some(value),
{
    lemma_config_line_parts(key, value);
    let formatted = spec_config_line(key, value);
    assert(key.is_prefix_of(formatted)) by {
        assert(formatted.subrange(0, key.len() as int) =~= key);
    }
    let updated = spec_config_set(views, key, value);
    lemma_first_prefixed_after_set(views, key, value);
    assert(first_prefixed(updated, key) == Some(formatted));
    assert(exists|v: Seq<char>| quote_free(v) && formatted == spec_config_line(key, v));
    let c = choose|v: Seq<char>| quote_free(v) && formatted == spec_config_line(key, v);
    lemma_config_value_unique(key, c, value);
}

/// After storing a key, the first line starting with it is the stored entry.
proof fn lemma_first_prefixed_after_set(views: Seq<Seq<char>>, key: Seq<char>, value: Seq<char>)
    ensures
        first_prefixed(spec_config_set(views, key, value), key) == Some(
            spec_config_line(key, value),
        ),
    decreases views.len(),
{
    let formatted = spec_config_line(key, value);
    lemma_config_line_parts(key, value);
    assert(key.is_prefix_of(formatted)) by {
        assert(formatted.subrange(0, key.len() as int) =~= key);
    }
    let updated = spec_config_set(views, key, value);
    if has_prefixed(views, key) {
        lemma_first_prefixed_of_replaced(views, key, value);
    } else {
        lemma_first_prefixed_of_pushed(views, key, value);
    }
}

/// Helper: scanning the replaced lines finds the stored entry first.
proof fn lemma_first_prefixed_of_replaced(views: Seq<Seq<char>>, key: Seq<char>, value: Seq<char>)
    requires
        has_prefixed(views, key),
    ensures
        first_prefixed(
            Seq::new(
                views.len(),
                |i: int|
                    if key.is_prefix_of(views[i]) {
                        spec_config_line(key, value)
                    } else {
                        views[i]
                    },
            ),
            key,
        ) == Some(spec_config_line(key, value)),
    decreases views.len(),
{
    let formatted = spec_config_line(key, value);
    lemma_config_line_parts(key, value);
    assert(key.is_prefix_of(formatted)) by {
        assert(formatted.subrange(0, key.len() as int) =~= key);
    }
    let updated = Seq::new(
        views.len(),
        |i: int|
            if key.is_prefix_of(views[i]) {
                formatted
            } else {
                views[i]
            },
    );
    if key.is_prefix_of(views[0]) {
        assert(updated[0] == formatted);
    } else {
        assert(has_prefixed(views.skip(1), key)) by {
            let w = choose|i: int| 0 <= i < views.len() && key.is_prefix_of(views[i]);
            assert(views.skip(1)[w - 1] == views[w]);
        }
        lemma_first_prefixed_of_replaced(views.skip(1), key, value);
        assert(updated.skip(1) =~= Seq::new(
            views.skip(1).len(),
            |i: int|
                if key.is_prefix_of(views.skip(1)[i]) {
                    formatted
                } else {
                    views.skip(1)[i]
                },
        ));
    }
}

/// Helper: when no line starts with the key, the appended entry is found.
proof fn lemma_first_prefixed_of_pushed(views: Seq<Seq<char>>, key: Seq<char>, value: Seq<char>)
    requires
        !has_prefixed(views, key),
    ensures
        first_prefixed(views.push(spec_config_line(key, value)), key) == Some(
            spec_config_line(key, value),
        ),
    decreases views.len(),
{
    let formatted = spec_config_line(key, value);
    lemma_config_line_parts(key, value);
    assert(key.is_prefix_of(formatted)) by {
        assert(formatted.subrange(0, key.len() as int) =~= key);
    }
    if views.len() == 0 {
        assert(views.push(formatted)[0] == formatted);
    } else {
        assert(!key.is_prefix_of(views[0]));
        assert(!has_prefixed(views.skip(1), key)) by {
            if has_prefixed(views.skip(1), key) {
                let w = choose|i: int|
                    0 <= i < views.skip(1).len() && key.is_prefix_of(views.skip(1)[i]);
                assert(views.skip(1)[w] == views[w + 1]);
            }
        }
        lemma_first_prefixed_of_pushed(views.skip(1), key, value);
        assert(views.push(formatted).skip(1) =~= views.skip(1).push(formatted));
    }
}

} // verus!
