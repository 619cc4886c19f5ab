//! The script-execution gateway.
//!
//! A script submission is validated here — recognized media type, bounded
//! body size, well-formed text — and packaged for the host that actually
//! runs it: the script text, the caller's address, the request headers
//! case-normalized into a mapping and serialized, and the variable
//! bindings carried by specially prefixed headers.  The host's answer is
//! translated back into either a streamed result or a structured error.

use vstd::prelude::*;

use crate::json::{json_object_of_pairs, pair_view, spec_json_object};
use crate::strutil::{lower_of, lowercase, spec_starts_with, str_starts_with};

verus! {

use vstd::string::StrSliceExecFns;
use vstd::string::StringExecFns;
use vstd::utf8::{decode_utf8, valid_utf8};

/// The media type a script submission must declare (a prefix of the
/// `Content-Type` header; parameters may follow).
pub const SCRIPT_MEDIA_TYPE: &'static str = "text/x-lnav-script";

/// Headers with this name prefix carry caller-supplied script variables;
/// the rest of the name is the variable's name.
pub const VAR_PREFIX: &'static str = "X-Lnav-Var-";

/// The body size ceiling for script submissions, in bytes.
pub const EXEC_BODY_LIMIT: usize = 1024 * 1024;

/// Why a script submission's body was refused.
#[derive(Clone, Copy, PartialEq, Eq, Structural, Debug)]
pub enum ScriptTextError {
    /// The body of the request was already extracted.
    BodyAlreadyExtracted,
    /// Wrong content type.
    WrongContentType,
    /// The body could not be read from the request.
    IoError,
    /// The limit to the number of bytes has been exceeded.
    LimitExceeded,
    /// The body is not valid UTF-8 text.
    NotUtf8,
}

impl ScriptTextError {
    /// A fixed description of the error, for the rejection body.
    pub fn describe(&self) -> (r: String)
        ensures
            r@ == match *self {
                ScriptTextError::BodyAlreadyExtracted => {
                    "the body of the request was already extracted"@
                },
                ScriptTextError::WrongContentType => {
                    "the request didn't have a plain text content type"@
                },
                ScriptTextError::IoError => "could not read the body from the request"@,
                ScriptTextError::LimitExceeded => {
                    "the limit to the number of bytes has been exceeded"@
                },
                ScriptTextError::NotUtf8 => {
                    "the content-type encoding is not ASCII or UTF-8, or the body is not valid UTF-8"@
                },
            },
    {
        match *self {
            ScriptTextError::BodyAlreadyExtracted => String::from_str(
                "the body of the request was already extracted",
            ),
            ScriptTextError::WrongContentType => String::from_str(
                "the request didn't have a plain text content type",
            ),
            ScriptTextError::IoError => String::from_str("could not read the body from the request"),
            ScriptTextError::LimitExceeded => String::from_str(
                "the limit to the number of bytes has been exceeded",
            ),
            ScriptTextError::NotUtf8 => String::from_str(
                "the content-type encoding is not ASCII or UTF-8, or the body is not valid UTF-8",
            ),
        }
    }
}

/// The characters of an optional string.
pub open spec fn view_opt_str(o: Option<&str>) -> Option<Seq<char>> {
    match o {
        Some(s) => Some(s@),
        None => None,
    }
}

/// The bytes of an optional byte vector.
pub open spec fn view_opt_bytes(o: Option<Vec<u8>>) -> Option<Seq<u8>> {
    match o {
        Some(b) => Some(b@),
        None => None,
    }
}

/// What validating a script body yields: the decoded text, or the first
/// failed check in validation order — media type, body presence, size,
/// encoding.
pub open spec fn spec_script_body(
    ct: Option<Seq<char>>,
    body: Option<Seq<u8>>,
    limit: int,
) -> Result<Seq<char>, ScriptTextError> {
    if !(ct is Some && spec_starts_with(ct->0, SCRIPT_MEDIA_TYPE@)) {
        Err(ScriptTextError::WrongContentType)
    } else if body is None {
        Err(ScriptTextError::BodyAlreadyExtracted)
    } else if body->0.len() > limit {
        Err(ScriptTextError::LimitExceeded)
    } else if !valid_utf8(body->0) {
        Err(ScriptTextError::NotUtf8)
    } else {
        Ok(decode_utf8(body->0))
    }
}

/// Relies on `String::from_utf8`: it succeeds exactly on valid UTF-8
/// input, and then returns the string those bytes encode.
#[verifier::external_body]
fn string_from_utf8(bytes: Vec<u8>) -> (r: Option<String>)
    ensures
        r is Some <==> valid_utf8(bytes@),
        r is Some ==> r->0@ == decode_utf8(bytes@),
{
    String::from_utf8(bytes).ok()
}

/// Validates a script submission and decodes its body, exactly as
/// `spec_script_body` says: the media type is checked first and alone
/// decides rejection before the body is ever looked at; an absent body
/// (already taken by other machinery) is an error; a body over `limit`
/// bytes is refused as oversize; what remains must be valid UTF-8.
pub fn script_body_with_limit(
    content_type: Option<&str>,
    body: Option<Vec<u8>>,
    limit: usize,
) -> (r: Result<String, ScriptTextError>)
    ensures
        ({
            let s = spec_script_body(view_opt_str(content_type), view_opt_bytes(body), limit as int);
            match r {
                Ok(text) => s == Ok::<Seq<char>, ScriptTextError>(text@),
                Err(e) => s == Err::<Seq<char>, ScriptTextError>(e),
            }
        }),
{
    let ct_ok = match content_type {
        Some(h) => str_starts_with(h, SCRIPT_MEDIA_TYPE),
        None => false,
    };
    if !ct_ok {
        return Err(ScriptTextError::WrongContentType);
    }
    let bytes = match body {
        Some(b) => b,
        None => {
            return Err(ScriptTextError::BodyAlreadyExtracted);
        },
    };
    if bytes.len() > limit {
        return Err(ScriptTextError::LimitExceeded);
    }
    match string_from_utf8(bytes) {
        Some(text) => Ok(text),
        None => Err(ScriptTextError::NotUtf8),
    }
}

/// The size ceiling is exact: with the media type right and the body
/// present, a body at the limit is never refused for size — it succeeds
/// outright when its bytes are valid text — while a body even one byte
/// over is refused with the size-limit error and nothing else, never a
/// partial success.
pub proof fn lemma_body_limit_exact(ct: Seq<char>, body: Seq<u8>, limit: int)
    requires
        spec_starts_with(ct, SCRIPT_MEDIA_TYPE@),
    ensures
        body.len() <= limit ==> spec_script_body(Some(ct), Some(body), limit) != Err::<
            Seq<char>,
            ScriptTextError,
        >(ScriptTextError::LimitExceeded),
        body.len() <= limit && valid_utf8(body) ==> spec_script_body(Some(ct), Some(body), limit)
            == Ok::<Seq<char>, ScriptTextError>(decode_utf8(body)),
        body.len() > limit ==> spec_script_body(Some(ct), Some(body), limit) == Err::<
            Seq<char>,
            ScriptTextError,
        >(ScriptTextError::LimitExceeded),
{
}

/// A submission whose content type is missing or not the script media
/// type is refused with the content-type error whatever the body holds —
/// even an absent body gives the same answer, so the decision stands
/// before any body is read.
pub proof fn lemma_wrong_content_type_first(
    ct: Option<Seq<char>>,
    body: Option<Seq<u8>>,
    limit: int,
)
    requires
        !(ct is Some && spec_starts_with(ct->0, SCRIPT_MEDIA_TYPE@)),
    ensures
        spec_script_body(ct, body, limit) == Err::<Seq<char>, ScriptTextError>(
            ScriptTextError::WrongContentType,
        ),
        spec_script_body(ct, body, limit) == spec_script_body(ct, None, limit),
{
}

/// The views of a sequence of string pairs.
pub open spec fn pair_views(s: Seq<(String, String)>) -> Seq<(Seq<char>, Seq<char>)> {
    s.map_values(|p: (String, String)| pair_view(p))
}

/// The same pairs with every name lowercased.
pub open spec fn spec_lowered(s: Seq<(Seq<char>, Seq<char>)>) -> Seq<(Seq<char>, Seq<char>)> {
    s.map_values(|p: (Seq<char>, Seq<char>)| (lower_of(p.0), p.1))
}

/// The value the pair list associates with `key`, later pairs winning
/// over earlier ones — the reading of a pair list as a mapping.
pub open spec fn spec_lookup(
    pairs: Seq<(Seq<char>, Seq<char>)>,
    key: Seq<char>,
) -> Option<Seq<char>>
    decreases pairs.len(),
{
    if pairs.len() == 0 {
        None
    } else if pairs.last().0 == key {
        Some(pairs.last().1)
    } else {
        spec_lookup(pairs.drop_last(), key)
    }
}

/// No two pairs share a name.
pub open spec fn unique_keys(s: Seq<(Seq<char>, Seq<char>)>) -> bool {
    forall|a: int, b: int| 0 <= a < b < s.len() ==> s[a].0 != s[b].0
}

/// The pair list reduced to a mapping: for every name, only its last
/// occurrence survives, the later entries standing first.
pub open spec fn spec_normalize(s: Seq<(Seq<char>, Seq<char>)>) -> Seq<(Seq<char>, Seq<char>)>
    decreases s.len(),
{
    if s.len() == 0 {
        Seq::empty()
    } else {
        let rest = spec_normalize(s.skip(1));
        if spec_lookup(rest, s[0].0) is Some {
            rest
        } else {
            rest.push(s[0])
        }
    }
}

/// Strict lexicographic order on character sequences, by code point.
/// Sorted string maps keep their keys in this order: byte order of the
/// UTF-8 encodings agrees with code-point order.
pub open spec fn spec_lex_less(a: Seq<char>, b: Seq<char>) -> bool
    decreases a.len(),
{
    if b.len() == 0 {
        false
    } else if a.len() == 0 {
        true
    } else if a[0] != b[0] {
        (a[0] as u32) < (b[0] as u32)
    } else {
        spec_lex_less(a.skip(1), b.skip(1))
    }
}

/// Lexicographic comparison; see `spec_lex_less`.
fn lex_less(a: &str, b: &str) -> (r: bool)
    ensures
        r == spec_lex_less(a@, b@),
{
    let na = a.unicode_len();
    let nb = b.unicode_len();
    let mut i: usize = 0;
    proof {
        assert(a@.skip(0) =~= a@);
        assert(b@.skip(0) =~= b@);
    }
    while i < na && i < nb
        invariant
            0 <= i <= na,
            0 <= i <= nb,
            na == a@.len(),
            nb == b@.len(),
            spec_lex_less(a@, b@) == spec_lex_less(a@.skip(i as int), b@.skip(i as int)),
        decreases na - i,
    {
        let ca = a.get_char(i);
        let cb = b.get_char(i);
        proof {
            assert(a@.skip(i as int)[0] == a@[i as int]);
            assert(b@.skip(i as int)[0] == b@[i as int]);
            assert(a@.skip(i as int).skip(1) =~= a@.skip(i as int + 1));
            assert(b@.skip(i as int).skip(1) =~= b@.skip(i as int + 1));
        }
        if ca != cb {
            return (ca as u32) < (cb as u32);
        }
        i += 1;
    }
    proof {
        if i == na {
            assert(a@.skip(i as int) =~= Seq::<char>::empty());
        }
        if i == nb {
            assert(b@.skip(i as int) =~= Seq::<char>::empty());
        }
    }
    na < nb
}

/// `p` placed into an already sorted pair list, before the first entry
/// whose key orders after `p`'s.
pub open spec fn spec_insert_sorted(
    p: (Seq<char>, Seq<char>),
    s: Seq<(Seq<char>, Seq<char>)>,
) -> Seq<(Seq<char>, Seq<char>)>
    decreases s.len(),
{
    if s.len() == 0 {
        seq![p]
    } else if spec_lex_less(p.0, s[0].0) {
        seq![p] + s
    } else {
        seq![s[0]] + spec_insert_sorted(p, s.skip(1))
    }
}

/// The pair list rearranged into ascending key order, by insertion.
pub open spec fn spec_sort_pairs(s: Seq<(Seq<char>, Seq<char>)>) -> Seq<(Seq<char>, Seq<char>)>
    decreases s.len(),
{
    if s.len() == 0 {
        s
    } else {
        spec_insert_sorted(s[0], spec_sort_pairs(s.skip(1)))
    }
}

/// Inserting at the first position whose key orders after `p`'s is what
/// `spec_insert_sorted` does.
proof fn lemma_insert_at(p: (Seq<char>, Seq<char>), s: Seq<(Seq<char>, Seq<char>)>, j: int)
    requires
        0 <= j <= s.len(),
        forall|k: int| 0 <= k < j ==> !spec_lex_less(p.0, (#[trigger] s[k]).0),
        j < s.len() ==> spec_lex_less(p.0, s[j].0),
    ensures
        spec_insert_sorted(p, s) == s.take(j) + seq![p] + s.skip(j),
    decreases j,
{
    if j == 0 {
        assert(spec_insert_sorted(p, s) =~= s.take(0) + seq![p] + s.skip(0));
    } else {
        assert(forall|k: int| 0 <= k < j - 1 ==> s.skip(1)[k] == s[k + 1]);
        assert(j - 1 < s.skip(1).len() ==> s.skip(1)[j - 1] == s[j]);
        lemma_insert_at(p, s.skip(1), j - 1);
        assert(seq![s[0]] + (s.skip(1).take(j - 1) + seq![p] + s.skip(1).skip(j - 1)) =~= s.take(
            j,
        ) + seq![p] + s.skip(j));
    }
}

/// Inserting a pair whose key the list does not hold adds exactly that
/// association and keeps every other lookup.
proof fn lemma_insert_lookup(
    p: (Seq<char>, Seq<char>),
    s: Seq<(Seq<char>, Seq<char>)>,
    key: Seq<char>,
)
    requires
        forall|k: int| 0 <= k < s.len() ==> (#[trigger] s[k]).0 != p.0,
    ensures
        spec_lookup(spec_insert_sorted(p, s), key) == if key == p.0 {
            Some(p.1)
        } else {
            spec_lookup(s, key)
        },
    decreases s.len(),
{
    let single = seq![p];
    assert(single.drop_last() =~= Seq::<(Seq<char>, Seq<char>)>::empty());
    assert(single.last() == p);
    assert(spec_lookup(Seq::<(Seq<char>, Seq<char>)>::empty(), key) is None);
    assert(spec_lookup(single, key) == if p.0 == key {
        Some(p.1)
    } else {
        None::<Seq<char>>
    });
    if s.len() == 0 {
        assert(spec_insert_sorted(p, s) == single);
    } else if spec_lex_less(p.0, s[0].0) {
        assert(spec_insert_sorted(p, s) == single + s);
        lemma_lookup_concat(single, s, key);
        if key == p.0 {
            lemma_lookup_none(s, key);
        }
    } else {
        let head = seq![s[0]];
        assert(head.drop_last() =~= Seq::<(Seq<char>, Seq<char>)>::empty());
        assert(head.last() == s[0]);
        assert(spec_lookup(head, key) == if s[0].0 == key {
            Some(s[0].1)
        } else {
            None::<Seq<char>>
        });
        assert(forall|k: int| 0 <= k < s.skip(1).len() ==> s.skip(1)[k] == s[k + 1]);
        lemma_insert_lookup(p, s.skip(1), key);
        assert(spec_insert_sorted(p, s) == head + spec_insert_sorted(p, s.skip(1)));
        lemma_lookup_concat(head, spec_insert_sorted(p, s.skip(1)), key);
        assert(s =~= head + s.skip(1));
        lemma_lookup_concat(head, s.skip(1), key);
        if key == p.0 {
            lemma_lookup_none(s, key);
            lemma_lookup_none(s.skip(1), key);
        }
    }
}

/// Inserting a pair whose key the unique-keyed list does not hold keeps
/// the keys unique, and adds no element beyond the pair and the list's
/// own.
proof fn lemma_insert_unique(p: (Seq<char>, Seq<char>), s: Seq<(Seq<char>, Seq<char>)>)
    requires
        unique_keys(s),
        forall|k: int| 0 <= k < s.len() ==> (#[trigger] s[k]).0 != p.0,
    ensures
        unique_keys(spec_insert_sorted(p, s)),
        forall|j: int|
            0 <= j < spec_insert_sorted(p, s).len() ==> (#[trigger] spec_insert_sorted(p, s)[j]
                == p || exists|k: int| 0 <= k < s.len() && spec_insert_sorted(p, s)[j] == s[k]),
    decreases s.len(),
{
    let r = spec_insert_sorted(p, s);
    if s.len() == 0 {
        assert(r =~= seq![p]);
        assert(forall|j: int| 0 <= j < r.len() ==> r[j] == p);
    } else if spec_lex_less(p.0, s[0].0) {
        assert(r == seq![p] + s);
        assert(r[0] == p);
        assert forall|j: int| 1 <= j < r.len() implies r[j] == s[j - 1] by {}
        assert forall|a: int, b: int| 0 <= a < b < r.len() implies r[a].0 != r[b].0 by {
            if a == 0 {
                assert(r[b] == s[b - 1]);
            } else {
                assert(r[a] == s[a - 1] && r[b] == s[b - 1]);
            }
        }
    } else {
        let rest = s.skip(1);
        assert(forall|k: int| 0 <= k < rest.len() ==> rest[k] == s[k + 1]);
        lemma_insert_unique(p, rest);
        let ri = spec_insert_sorted(p, rest);
        assert(r == seq![s[0]] + ri);
        assert(r[0] == s[0]);
        assert forall|j: int| 1 <= j < r.len() implies r[j] == ri[j - 1] by {}
        assert forall|a: int, b: int| 0 <= a < b < r.len() implies r[a].0 != r[b].0 by {
            if a == 0 {
                assert(r[b] == ri[b - 1]);
                if ri[b - 1] == p {
                    assert(s[0].0 != p.0);
                } else {
                    let k = choose|k: int| 0 <= k < rest.len() && ri[b - 1] == rest[k];
                    assert(ri[b - 1] == s[k + 1]);
                }
            } else {
                assert(r[a] == ri[a - 1] && r[b] == ri[b - 1]);
            }
        }
    }
}

/// Sorting a unique-keyed pair list keeps its keys unique.
pub proof fn lemma_sort_unique(s: Seq<(Seq<char>, Seq<char>)>)
    requires
        unique_keys(s),
    ensures
        unique_keys(spec_sort_pairs(s)),
    decreases s.len(),
{
    if s.len() > 0 {
        let rest = s.skip(1);
        assert(forall|k: int| 0 <= k < rest.len() ==> rest[k] == s[k + 1]);
        assert(unique_keys(rest));
        lemma_sort_unique(rest);
        lemma_sort_preserves_lookup(rest, s[0].0);
        assert(forall|k: int| 0 <= k < rest.len() ==> (#[trigger] rest[k]).0 != s[0].0);
        lemma_lookup_none(rest, s[0].0);
        lemma_lookup_none(spec_sort_pairs(rest), s[0].0);
        lemma_insert_unique(s[0], spec_sort_pairs(rest));
        assert(spec_sort_pairs(s) == spec_insert_sorted(s[0], spec_sort_pairs(rest)));
    }
}

/// Sorting a unique-keyed pair list keeps the mapping: every key still
/// resolves to the same value, and to nothing else.
pub proof fn lemma_sort_preserves_lookup(s: Seq<(Seq<char>, Seq<char>)>, key: Seq<char>)
    requires
        unique_keys(s),
    ensures
        spec_lookup(spec_sort_pairs(s), key) == spec_lookup(s, key),
    decreases s.len(),
{
    if s.len() > 0 {
        let rest = s.skip(1);
        assert(forall|k: int| 0 <= k < rest.len() ==> rest[k] == s[k + 1]);
        assert(unique_keys(rest));
        lemma_sort_preserves_lookup(rest, key);
        lemma_sort_preserves_lookup(rest, s[0].0);
        assert(forall|k: int| 0 <= k < rest.len() ==> (#[trigger] rest[k]).0 != s[0].0);
        lemma_lookup_none(rest, s[0].0);
        lemma_lookup_none(spec_sort_pairs(rest), s[0].0);
        lemma_insert_lookup(s[0], spec_sort_pairs(rest), key);
        assert(spec_sort_pairs(s) == spec_insert_sorted(s[0], spec_sort_pairs(rest)));
        let head = seq![s[0]];
        assert(head.drop_last() =~= Seq::<(Seq<char>, Seq<char>)>::empty());
        assert(head.last() == s[0]);
        assert(spec_lookup(Seq::<(Seq<char>, Seq<char>)>::empty(), key) is None);
        assert(spec_lookup(head, key) == if s[0].0 == key {
            Some(s[0].1)
        } else {
            None::<Seq<char>>
        });
        assert(s =~= head + rest);
        lemma_lookup_concat(head, rest, key);
    }
}

/// The index before which `key` belongs in the sorted list: the first
/// position whose key orders after it.
fn insertion_index(out: &Vec<(String, String)>, key: &String) -> (j: usize)
    ensures
        0 <= j <= out@.len(),
        forall|k: int| 0 <= k < j ==> !spec_lex_less(key@, (#[trigger] pair_views(out@)[k]).0),
        j < out@.len() ==> spec_lex_less(key@, pair_views(out@)[j as int].0),
{
    let mut j: usize = 0;
    while j < out.len()
        invariant
            0 <= j <= out@.len(),
            forall|k: int| 0 <= k < j ==> !spec_lex_less(key@, (#[trigger] pair_views(out@)[k]).0),
        decreases out@.len() - j,
    {
        if lex_less(key.as_str(), out[j].0.as_str()) {
            return j;
        }
        j += 1;
    }
    j
}

/// Places one pair into the sorted list, as `spec_insert_sorted` says.
fn insert_sorted(out: &mut Vec<(String, String)>, p: (String, String))
    ensures
        pair_views(final(out)@) == spec_insert_sorted((p.0@, p.1@), pair_views(old(out)@)),
{
    let j = insertion_index(out, &p.0);
    let ghost pv = (p.0@, p.1@);
    let ghost pre = pair_views(out@);
    out.insert(j, p);
    proof {
        lemma_insert_at(pv, pre, j as int);
        assert(pair_views(out@) =~= pre.take(j as int) + seq![pv] + pre.skip(j as int));
    }
}

/// Rearranges the pair list into ascending key order, as
/// `spec_sort_pairs` says.
fn sort_pairs(v: &Vec<(String, String)>) -> (r: Vec<(String, String)>)
    ensures
        pair_views(r@) == spec_sort_pairs(pair_views(v@)),
{
    let ghost views = pair_views(v@);
    let mut out: Vec<(String, String)> = Vec::new();
    let mut i: usize = v.len();
    proof {
        assert(views.skip(v@.len() as int) =~= Seq::<(Seq<char>, Seq<char>)>::empty());
    }
    while i > 0
        invariant
            0 <= i <= v@.len(),
            views == pair_views(v@),
            pair_views(out@) == spec_sort_pairs(views.skip(i as int)),
        decreases i,
    {
        i -= 1;
        proof {
            assert(views.skip(i as int).skip(1) =~= views.skip(i as int + 1));
            assert(views.skip(i as int)[0] == views[i as int]);
        }
        let p = (v[i].0.clone(), v[i].1.clone());
        proof {
            assert((p.0@, p.1@) == views[i as int]);
        }
        insert_sorted(&mut out, p);
    }
    proof {
        assert(views.skip(0) =~= views);
    }
    out
}

/// Looking a key up in concatenated pair lists reads the back list first.
proof fn lemma_lookup_concat(
    a: Seq<(Seq<char>, Seq<char>)>,
    b: Seq<(Seq<char>, Seq<char>)>,
    key: Seq<char>,
)
    ensures
        spec_lookup(a + b, key) == if spec_lookup(b, key) is Some {
            spec_lookup(b, key)
        } else {
            spec_lookup(a, key)
        },
    decreases b.len(),
{
    if b.len() == 0 {
        assert(a + b =~= a);
    } else {
        assert((a + b).drop_last() =~= a + b.drop_last());
        assert((a + b).last() == b.last());
        lemma_lookup_concat(a, b.drop_last(), key);
    }
}

/// A lookup misses exactly when no pair carries the key.
proof fn lemma_lookup_none(s: Seq<(Seq<char>, Seq<char>)>, key: Seq<char>)
    ensures
        (spec_lookup(s, key) is None) <==> (forall|j: int| 0 <= j < s.len() ==> s[j].0 != key),
    decreases s.len(),
{
    if s.len() > 0 {
        lemma_lookup_none(s.drop_last(), key);
        assert(forall|j: int| 0 <= j < s.len() - 1 ==> s[j] == s.drop_last()[j]);
    }
}

/// Normalizing leaves each name at most once.
pub proof fn lemma_normalize_unique(s: Seq<(Seq<char>, Seq<char>)>)
    ensures
        unique_keys(spec_normalize(s)),
    decreases s.len(),
{
    if s.len() > 0 {
        lemma_normalize_unique(s.skip(1));
        let rest = spec_normalize(s.skip(1));
        if spec_lookup(rest, s[0].0) is None {
            lemma_lookup_none(rest, s[0].0);
            let out = rest.push(s[0]);
            assert forall|a: int, b: int| 0 <= a < b < out.len() implies out[a].0 != out[b].0 by {
                if b < rest.len() {
                    assert(out[a] == rest[a] && out[b] == rest[b]);
                } else {
                    assert(out[b] == s[0] && out[a] == rest[a]);
                }
            }
        }
    }
}

/// Normalizing keeps the mapping: every key still resolves to the value
/// its last occurrence gave it, and to nothing else.
pub proof fn lemma_normalize_lookup(s: Seq<(Seq<char>, Seq<char>)>, key: Seq<char>)
    ensures
        spec_lookup(spec_normalize(s), key) == spec_lookup(s, key),
    decreases s.len(),
{
    if s.len() > 0 {
        lemma_normalize_lookup(s.skip(1), key);
        let rest = spec_normalize(s.skip(1));
        let head = seq![s[0]];
        assert(s =~= head + s.skip(1));
        lemma_lookup_concat(head, s.skip(1), key);
        assert(head.len() == 1);
        assert(head.last() == s[0]);
        assert(head.drop_last() =~= Seq::<(Seq<char>, Seq<char>)>::empty());
        assert(spec_lookup(Seq::<(Seq<char>, Seq<char>)>::empty(), key) is None);
        assert(spec_lookup(head, key) == if s[0].0 == key {
            Some(s[0].1)
        } else {
            None::<Seq<char>>
        });
        if spec_lookup(rest, s[0].0) is None {
            assert(rest.push(s[0]).drop_last() =~= rest);
            assert(rest.push(s[0]).last() == s[0]);
        }
    }
}

/// Whether the list associates any value with `key`.
fn has_key(v: &Vec<(String, String)>, key: &String) -> (r: bool)
    ensures
        r == (spec_lookup(pair_views(v@), key@) is Some),
{
    let ghost views = pair_views(v@);
    let mut j: usize = v.len();
    proof {
        assert(views.take(v@.len() as int) =~= views);
    }
    while j > 0
        invariant
            0 <= j <= v@.len(),
            views == pair_views(v@),
            spec_lookup(views, key@) == spec_lookup(views.take(j as int), key@),
        decreases j,
    {
        j -= 1;
        proof {
            assert(views.take(j + 1).drop_last() =~= views.take(j as int));
            assert(views.take(j + 1).last() == views[j as int]);
        }
        if v[j].0 == *key {
            return true;
        }
    }
    false
}

/// Case-normalizes the header list into a mapping: every name lowercased,
/// for duplicate names only the last occurrence kept, and the surviving
/// pairs arranged in ascending key order — exactly `spec_sort_pairs` over
/// `spec_normalize` over the lowered pairs.  `lemma_normalize_unique`,
/// `lemma_normalize_lookup` and `lemma_sort_preserves_lookup` state what
/// that means as a map, and `lemma_sort_unique` that the sorted pairs
/// keep their keys unique.
pub fn normalize_headers(headers: &Vec<(String, String)>) -> (r: Vec<(String, String)>)
    ensures
        pair_views(r@) == spec_sort_pairs(spec_normalize(spec_lowered(pair_views(headers@)))),
{
    let ghost lowered = spec_lowered(pair_views(headers@));
    let mut out: Vec<(String, String)> = Vec::new();
    let mut i: usize = headers.len();
    proof {
        assert(lowered.len() == headers@.len());
        assert(lowered.skip(headers@.len() as int) =~= Seq::<(Seq<char>, Seq<char>)>::empty());
    }
    while i > 0
        invariant
            0 <= i <= headers@.len(),
            lowered == spec_lowered(pair_views(headers@)),
            lowered.len() == headers@.len(),
            pair_views(out@) == spec_normalize(lowered.skip(i as int)),
        decreases i,
    {
        i -= 1;
        proof {
            assert(lowered.skip(i as int).skip(1) =~= lowered.skip(i as int + 1));
            assert(lowered.skip(i as int)[0] == lowered[i as int]);
            assert(lowered[i as int] == (lower_of(headers@[i as int].0@), headers@[i as int].1@));
        }
        let lname = lowercase(headers[i].0.as_str());
        if !has_key(&out, &lname) {
            let value = headers[i].1.clone();
            out.push((lname, value));
            proof {
                assert(pair_views(out@) =~= spec_normalize(lowered.skip(i as int)));
            }
        } else {
            proof {
                assert(pair_views(out@) =~= spec_normalize(lowered.skip(i as int)));
            }
        }
    }
    proof {
        assert(lowered.skip(0) =~= lowered);
    }
    sort_pairs(&out)
}

/// One caller-supplied script variable, taken from a prefixed header.
pub struct VarPair {
    /// The variable's name: the header name with the prefix stripped.
    pub expr: String,
    /// The header's value.
    pub value: String,
}

/// The views of a sequence of variable pairs.
pub open spec fn var_views(s: Seq<VarPair>) -> Seq<(Seq<char>, Seq<char>)> {
    s.map_values(|v: VarPair| (v.expr@, v.value@))
}

/// Whether a header carries a script variable.
pub open spec fn spec_is_var(p: (Seq<char>, Seq<char>)) -> bool {
    spec_starts_with(p.0, VAR_PREFIX@)
}

/// The variable a prefixed header stands for.
pub open spec fn spec_var_of(p: (Seq<char>, Seq<char>)) -> (Seq<char>, Seq<char>) {
    (p.0.skip(VAR_PREFIX@.len() as int), p.1)
}

/// The variables carried by a header list, in header order.
pub open spec fn spec_vars(pairs: Seq<(Seq<char>, Seq<char>)>) -> Seq<(Seq<char>, Seq<char>)> {
    pairs.filter(|p: (Seq<char>, Seq<char>)| spec_is_var(p)).map_values(
        |p: (Seq<char>, Seq<char>)| spec_var_of(p),
    )
}

/// Collects the script variables from the headers: every header whose
/// name starts with the variable prefix becomes one binding, its name the
/// header name with the prefix stripped, in header order.
pub fn extract_vars(headers: &Vec<(String, String)>) -> (r: Vec<VarPair>)
    ensures
        var_views(r@) == spec_vars(pair_views(headers@)),
{
    let ghost views = pair_views(headers@);
    let ghost pred = |p: (Seq<char>, Seq<char>)| spec_is_var(p);
    let mut out: Vec<VarPair> = Vec::new();
    let mut i: usize = 0;
    while i < headers.len()
        invariant
            0 <= i <= headers@.len(),
            views == pair_views(headers@),
            pred == (|p: (Seq<char>, Seq<char>)| spec_is_var(p)),
            var_views(out@) == views.take(i as int).filter(pred).map_values(
                |p: (Seq<char>, Seq<char>)| spec_var_of(p),
            ),
        decreases headers@.len() - i,
    {
        let name = headers[i].0.as_str();
        let ghost pre_out = out@;
        if str_starts_with(name, VAR_PREFIX) {
            let plen = VAR_PREFIX.unicode_len();
            let n = name.unicode_len();
            let expr_slice = name.substring_char(plen, n);
            let vp = VarPair { expr: expr_slice.to_owned(), value: headers[i].1.clone() };
            proof {
                assert(vp.expr@ =~= name@.skip(VAR_PREFIX@.len() as int));
                assert((vp.expr@, vp.value@) == spec_var_of(views[i as int]));
            }
            let ghost gv = (vp.expr@, vp.value@);
            out.push(vp);
            proof {
                reveal(Seq::filter);
                assert(views.take(i + 1).drop_last() =~= views.take(i as int));
                assert(views.take(i + 1).last() == views[i as int]);
                assert(pred(views[i as int]));
                assert(views.take(i + 1).filter(pred) == views.take(i as int).filter(pred).push(
                    views[i as int],
                ));
                assert(var_views(out@) =~= var_views(pre_out).push(gv));
                assert(views.take(i + 1).filter(pred).map_values(
                    |p: (Seq<char>, Seq<char>)| spec_var_of(p),
                ) =~= views.take(i as int).filter(pred).map_values(
                    |p: (Seq<char>, Seq<char>)| spec_var_of(p),
                ).push(spec_var_of(views[i as int])));
                assert(var_views(out@) =~= views.take(i + 1).filter(pred).map_values(
                    |p: (Seq<char>, Seq<char>)| spec_var_of(p),
                ));
            }
        } else {
            proof {
                reveal(Seq::filter);
                assert(views.take(i + 1).drop_last() =~= views.take(i as int));
                assert(views.take(i + 1).last() == views[i as int]);
                assert(!pred(views[i as int]));
                assert(var_views(out@) =~= views.take(i + 1).filter(pred).map_values(
                    |p: (Seq<char>, Seq<char>)| spec_var_of(p),
                ));
            }
        }
        i += 1;
    }
    proof {
        assert(views.take(views.len() as int) =~= views);
    }
    out
}

/// Everything the host needs to run a submitted script.
pub struct ExecCall {
    /// The caller's address, as the transport reports it.
    pub src: String,
    /// The validated script text.
    pub body: String,
    /// The request headers, case-normalized and serialized as a JSON
    /// object of strings.
    pub headers_json: String,
    /// Caller-supplied script variables, in header order.
    pub vars: Vec<VarPair>,
}

/// Validates a submission and assembles the call to the host: the body is
/// checked and decoded under the configured size ceiling, the headers are
/// normalized into a mapping and serialized, and the variable bindings
/// are collected.  Rejections are exactly those of `spec_script_body`.
pub fn build_exec_call(
    src: String,
    content_type: Option<&str>,
    body: Option<Vec<u8>>,
    headers: &Vec<(String, String)>,
) -> (r: Result<ExecCall, ScriptTextError>)
    ensures
        ({
            let s = spec_script_body(
                view_opt_str(content_type),
                view_opt_bytes(body),
                EXEC_BODY_LIMIT as int,
            );
            match r {
                Ok(call) => {
                    &&& s == Ok::<Seq<char>, ScriptTextError>(call.body@)
                    &&& call.src@ == src@
                    &&& call.headers_json@ == spec_json_object(
                        spec_sort_pairs(spec_normalize(spec_lowered(pair_views(headers@)))),
                    )
                    &&& var_views(call.vars@) == spec_vars(pair_views(headers@))
                },
                Err(e) => s == Err::<Seq<char>, ScriptTextError>(e),
            }
        }),
{
    let text = match script_body_with_limit(content_type, body, EXEC_BODY_LIMIT) {
        Ok(t) => t,
        Err(e) => {
            return Err(e);
        },
    };
    let normalized = normalize_headers(headers);
    let headers_json = json_object_of_pairs(&normalized);
    let vars = extract_vars(headers);
    Ok(ExecCall { src, body: text, headers_json, vars })
}

/// The host's structured answer to a script execution.
pub struct ExecError {
    /// Empty when the execution succeeded; otherwise the error message.
    pub msg: String,
    /// Why the execution failed.
    pub reason: String,
    /// Advice on how to fix the failure.
    pub help: String,
}

/// What the host hands back for one execution: either a readable stream
/// of results or an error.
pub struct ExecResult {
    /// The host's status line for the execution.
    pub status: String,
    /// Media type of the result stream.
    pub content_type: String,
    /// File descriptor of the result stream, owned by the caller on
    /// success.
    pub content_fd: i32,
    /// The error; success is signalled by an empty `msg`.
    pub error: ExecError,
}

/// The HTTP status reported for a failed execution.
pub const EXEC_FAILURE_STATUS: u16 = 500;

/// How the gateway answers the client for one host result.
pub enum ExecOutcome {
    /// Stream the result back with its media type.
    Stream {
        /// Media type of the stream.
        content_type: String,
        /// File descriptor to stream from.
        content_fd: i32,
    },
    /// Report the failure as JSON.
    Failure {
        /// The HTTP status to answer with.
        status: u16,
        /// The error, serialized as a JSON object.
        body_json: String,
    },
}

/// Translates the host's execution result: an empty error message means
/// success and the result is streamed; anything else is answered as a
/// serialized error with the failure status.
pub fn exec_response(res: ExecResult) -> (r: ExecOutcome)
    ensures
        res.error.msg@.len() == 0 ==> r == (ExecOutcome::Stream {
            content_type: res.content_type,
            content_fd: res.content_fd,
        }),
        res.error.msg@.len() != 0 ==> match r {
            ExecOutcome::Failure { status, body_json } => {
                &&& status == EXEC_FAILURE_STATUS
                &&& body_json@ == spec_json_object(
                    seq![
                        ("msg"@, res.error.msg@),
                        ("reason"@, res.error.reason@),
                        ("help"@, res.error.help@),
                    ],
                )
            },
            ExecOutcome::Stream { .. } => false,
        },
{
    if res.error.msg.as_str().is_empty() {
        ExecOutcome::Stream { content_type: res.content_type, content_fd: res.content_fd }
    } else {
        let mut pairs: Vec<(String, String)> = Vec::new();
        pairs.push((String::from_str("msg"), res.error.msg));
        pairs.push((String::from_str("reason"), res.error.reason));
        pairs.push((String::from_str("help"), res.error.help));
        let body_json = json_object_of_pairs(&pairs);
        proof {
            assert(pair_views(pairs@) =~= seq![
                ("msg"@, res.error.msg@),
                ("reason"@, res.error.reason@),
                ("help"@, res.error.help@),
            ]);
        }
        ExecOutcome::Failure { status: EXEC_FAILURE_STATUS, body_json }
    }
}

} // verus!
