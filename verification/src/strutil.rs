//! Character-level string tests.
//!
//! Routing and header handling compare and slice strings; these helpers do
//! it one character at a time, with contracts over the strings' character
//! sequences.

use vstd::prelude::*;

verus! {

use vstd::string::StrSliceExecFns;

/// Whether `s` begins with `prefix`.
pub open spec fn spec_starts_with(s: Seq<char>, prefix: Seq<char>) -> bool {
    s.len() >= prefix.len() && s.take(prefix.len() as int) == prefix
}

/// Character-for-character string equality.
pub fn str_eq(a: &str, b: &str) -> (r: bool)
    ensures
        r == (a@ == b@),
{
    let n = a.unicode_len();
    if n != b.unicode_len() {
        return false;
    }
    let mut i: usize = 0;
    while i < n
        invariant
            0 <= i <= n,
            n == a@.len(),
            n == b@.len(),
            forall|j: int| 0 <= j < i ==> a@[j] == b@[j],
        decreases n - i,
    {
        if a.get_char(i) != b.get_char(i) {
            return false;
        }
        i += 1;
    }
    proof {
        assert(a@ =~= b@);
    }
    true
}

/// Prefix test; see `spec_starts_with`.
pub fn str_starts_with(s: &str, prefix: &str) -> (r: bool)
    ensures
        r == spec_starts_with(s@, prefix@),
{
    let n = prefix.unicode_len();
    if s.unicode_len() < n {
        return false;
    }
    let mut i: usize = 0;
    while i < n
        invariant
            0 <= i <= n,
            n == prefix@.len(),
            n <= s@.len(),
            forall|j: int| 0 <= j < i ==> s@[j] == prefix@[j],
        decreases n - i,
    {
        if s.get_char(i) != prefix.get_char(i) {
            proof {
                assert(s@.take(n as int)[i as int] != prefix@[i as int]);
            }
            return false;
        }
        i += 1;
    }
    proof {
        assert(s@.take(n as int) =~= prefix@);
    }
    true
}

/// What `str::to_lowercase` returns for the given characters; opaque, but
/// fixed by the input alone.
pub uninterp spec fn lower_of(s: Seq<char>) -> Seq<char>;

/// The code point an ASCII character lowers to: the letters `A` to `Z`
/// shift to `a` to `z`; every other ASCII character stays itself.
pub open spec fn spec_ascii_lower_code(c: int) -> int {
    if 65 <= c <= 90 {
        c + 32
    } else {
        c
    }
}

/// Relies on `str::to_lowercase`: the result is a function of the
/// characters alone (Unicode case mapping, no locale).  On all-ASCII
/// input the mapping is one character for one: `A` to `Z` lower, the
/// rest stay — ASCII has none of Unicode's multi-character lowerings.
#[verifier::external_body]
pub fn lowercase(s: &str) -> (r: String)
    ensures
        r@ == lower_of(s@),
        (forall|i: int| 0 <= i < s@.len() ==> ((#[trigger] s@[i]) as u32) < 128) ==> {
            &&& r@.len() == s@.len()
            &&& forall|i: int|
                0 <= i < s@.len() ==> ((#[trigger] r@[i]) as u32) == spec_ascii_lower_code(
                    s@[i] as int,
                )
            &&& forall|i: int|
                0 <= i < s@.len() && !(65 <= ((#[trigger] s@[i]) as u32) <= 90) ==> r@[i] == s@[i]
        },
{
    s.to_lowercase()
}

} // verus!
