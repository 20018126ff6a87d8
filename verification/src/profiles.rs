//! Profile names: the file name a profile is stored under, and the list of
//! profiles found in the profiles directory.

use vstd::prelude::*;

use crate::model::strings_view;
use crate::text::{
    char_is_space, chars_of, is_space, lemma_trim_no_spaces, lemma_trim_trimmed, lemma_leading_spaces,
    lex_lt, lemma_lex_lt_transitive, lemma_seq_drop_last_contains, lemma_seq_insert_contains, push_str, string_from_chars, string_lt, trim, trim_bounds,
};

verus! {

/// Fallback for a name with nothing usable in it.
pub const FALLBACK_PROFILE: &'static str = "Profile";

/// Extension of profile files.
pub const PROFILE_EXTENSION: &'static str = ".json";

/// What `char::is_alphanumeric` answers for a character outside ASCII
/// (the Unicode Alphabetic or Numeric property).
pub uninterp spec fn unicode_alphanumeric(c: char) -> bool;

/// ASCII letters and digits.
pub open spec fn ascii_alphanumeric(c: char) -> bool {
    let u = c as u32;
    ||| 0x30 <= u <= 0x39
    ||| 0x41 <= u <= 0x5A
    ||| 0x61 <= u <= 0x7A
}

/// `char::is_alphanumeric`: ASCII letters and digits, and beyond ASCII the
/// Unicode Alphabetic and Numeric characters.
pub open spec fn alphanumeric(c: char) -> bool {
    if (c as u32) < 0x80 {
        ascii_alphanumeric(c)
    } else {
        unicode_alphanumeric(c)
    }
}

/// Calls std's `char::is_alphanumeric`. Claimed of it: among ASCII
/// characters exactly the letters and digits have the Alphabetic or
/// Numeric property it tests; beyond ASCII its answer depends on the
/// character alone (it reads fixed Unicode tables).
#[verifier::external_body]
fn is_alphanumeric(c: char) -> (r: bool)
    ensures
        (c as u32) < 0x80 ==> r == ascii_alphanumeric(c),
        (c as u32) >= 0x80 ==> r == unicode_alphanumeric(c),
{
    c.is_alphanumeric()
}

/// Characters a profile name keeps as they are.
pub open spec fn allowed(c: char) -> bool {
    alphanumeric(c) || is_space(c) || c == '-' || c == '_'
}

/// Any other character becomes '_'.
pub open spec fn cleaned(c: char) -> char {
    if allowed(c) {
        c
    } else {
        '_'
    }
}

/// A profile name safe to use as a file name: unsafe characters become
/// '_', surrounding whitespace goes, and a name left empty becomes
/// "Profile".
pub open spec fn spec_sanitize(name: Seq<char>) -> Seq<char> {
    let t = trim(name.map_values(|c: char| cleaned(c)));
    if t.len() == 0 {
        FALLBACK_PROFILE@
    } else {
        t
    }
}

pub fn sanitize_name(name: &str) -> (r: String)
    ensures
        r@ == spec_sanitize(name@),
{
    let cs = chars_of(name);
    let mut m: Vec<char> = Vec::new();
    let mut i: usize = 0;
    while i < cs.len()
        invariant
            i <= cs@.len(),
            cs@ == name@,
            m@ == cs@.take(i as int).map_values(|c: char| cleaned(c)),
        decreases cs@.len() - i,
    {
        let c = cs[i];
        let keep = is_alphanumeric(c) || char_is_space(c) || c == '-' || c == '_';
        m.push(if keep { c } else { '_' });
        i = i + 1;
        proof {
            assert(m@ =~= cs@.take(i as int).map_values(|c: char| cleaned(c)));
        }
    }
    proof {
        assert(cs@.take(cs@.len() as int) =~= cs@);
    }
    let (lo, hi) = trim_bounds(m.as_slice());
    if lo == hi {
        FALLBACK_PROFILE.to_string()
    } else {
        string_from_chars(m.as_slice(), lo, hi)
    }
}

/// Every character of `trim(s)` is a character of `s`.
proof fn lemma_trim_chars(s: Seq<char>)
    ensures
        forall|i: int| 0 <= i < trim(s).len() ==> exists|j: int| 0 <= j < s.len() && #[trigger] trim(s)[i] == s[j],
{
    lemma_leading_spaces(s);
    let l = crate::text::leading_spaces(s) as int;
    crate::text::lemma_trailing_spaces(s.skip(l));
    assert forall|i: int| 0 <= i < trim(s).len() implies exists|j: int| 0 <= j < s.len() && #[trigger] trim(s)[i] == s[j] by {
        assert(trim(s)[i] == s[i + l]);
    }
}

proof fn lemma_fallback()
    ensures
        FALLBACK_PROFILE@.len() > 0,
        forall|i: int| 0 <= i < FALLBACK_PROFILE@.len() ==> allowed(#[trigger] FALLBACK_PROFILE@[i]) && !is_space(FALLBACK_PROFILE@[i]),
        spec_sanitize(FALLBACK_PROFILE@) == FALLBACK_PROFILE@,
{
    reveal_strlit("Profile");
    let p = FALLBACK_PROFILE@;
    assert(p.len() == 7);
    assert(p.map_values(|c: char| cleaned(c)) =~= p);
    lemma_trim_no_spaces(p);
}

/// A sanitized name is never empty, has no surrounding whitespace and holds
/// only letters, digits, whitespace, '-' and '_'.
pub proof fn law_sanitized_shape(name: Seq<char>)
    ensures
        spec_sanitize(name).len() > 0,
        !is_space(spec_sanitize(name)[0]),
        !is_space(spec_sanitize(name).last()),
        forall|i: int| 0 <= i < spec_sanitize(name).len() ==> allowed(#[trigger] spec_sanitize(name)[i]),
{
    let m = name.map_values(|c: char| cleaned(c));
    lemma_trim_trimmed(m);
    lemma_trim_chars(m);
    lemma_fallback();
    let t = trim(m);
    if t.len() > 0 {
        assert forall|i: int| 0 <= i < t.len() implies allowed(#[trigger] t[i]) by {
            let j = choose|j: int| 0 <= j < m.len() && t[i] == m[j];
            assert(m[j] == cleaned(name[j]));
        }
    }
}

/// Sanitizing a sanitized name changes nothing.
pub proof fn law_sanitize_idempotent(name: Seq<char>)
    ensures
        spec_sanitize(spec_sanitize(name)) == spec_sanitize(name),
{
    law_sanitized_shape(name);
    let s = spec_sanitize(name);
    assert(s.map_values(|c: char| cleaned(c)) =~= s);
    lemma_trim_no_spaces(s);
}

/// File name of the profile called `name`: "{sanitized name}.json".
pub fn profile_file_name(name: &str) -> (r: String)
    ensures
        r@ == spec_sanitize(name@) + PROFILE_EXTENSION@,
{
    let mut r = sanitize_name(name);
    push_str(&mut r, PROFILE_EXTENSION);
    r
}

/// The profile a file name stores, if it is a profile file: a non-empty
/// stem with the extension ".json".
pub open spec fn json_stem(f: Seq<char>) -> Option<Seq<char>> {
    if f.len() > PROFILE_EXTENSION@.len() && f.subrange(
        f.len() - PROFILE_EXTENSION@.len(),
        f.len() as int,
    ) == PROFILE_EXTENSION@ {
        Some(f.subrange(0, f.len() - PROFILE_EXTENSION@.len()))
    } else {
        None
    }
}

/// Profile names of the first `n` file names, in order.
pub open spec fn json_stems(files: Seq<String>, n: int) -> Seq<Seq<char>>
    decreases n,
{
    if n <= 0 {
        seq![]
    } else {
        let r = json_stems(files, n - 1);
        match json_stem(files[n - 1]@) {
            Some(stem) => r.push(stem),
            None => r,
        }
    }
}

/// Where `x` goes into the sorted `sorted`, searching from `k`: before the
/// first greater name.
pub open spec fn name_insert_pos(sorted: Seq<Seq<char>>, x: Seq<char>, k: int) -> int
    decreases sorted.len() - k,
{
    if k < 0 || k >= sorted.len() {
        sorted.len() as int
    } else if lex_lt(x, sorted[k]) {
        k
    } else {
        name_insert_pos(sorted, x, k + 1)
    }
}

/// `s` in ascending string order.
pub open spec fn sort_names(s: Seq<Seq<char>>) -> Seq<Seq<char>>
    decreases s.len(),
{
    if s.len() == 0 {
        s
    } else {
        let sorted = sort_names(s.drop_last());
        sorted.insert(name_insert_pos(sorted, s.last(), 0), s.last())
    }
}

proof fn lemma_name_insert_pos_bounds(sorted: Seq<Seq<char>>, x: Seq<char>, k: int)
    requires
        0 <= k <= sorted.len(),
    ensures
        k <= name_insert_pos(sorted, x, k) <= sorted.len(),
    decreases sorted.len() - k,
{
    if k < sorted.len() && !lex_lt(x, sorted[k]) {
        lemma_name_insert_pos_bounds(sorted, x, k + 1);
    }
}

/// No later name is less than an earlier one.
pub open spec fn names_sorted(s: Seq<Seq<char>>) -> bool {
    forall|i: int, j: int| 0 <= i < j < s.len() ==> !lex_lt(#[trigger] s[j], #[trigger] s[i])
}

proof fn lemma_name_insert_pos(sorted: Seq<Seq<char>>, x: Seq<char>, k: int)
    requires
        0 <= k <= sorted.len(),
    ensures
        forall|i: int| k <= i < name_insert_pos(sorted, x, k) ==> !lex_lt(x, #[trigger] sorted[i]),
        name_insert_pos(sorted, x, k) < sorted.len() ==> lex_lt(x, sorted[name_insert_pos(sorted, x, k)]),
    decreases sorted.len() - k,
{
    if k < sorted.len() && !lex_lt(x, sorted[k]) {
        lemma_name_insert_pos(sorted, x, k + 1);
    }
}

proof fn lemma_insert_keeps_sorted(sorted: Seq<Seq<char>>, x: Seq<char>)
    requires
        names_sorted(sorted),
    ensures
        names_sorted(sorted.insert(name_insert_pos(sorted, x, 0), x)),
{
    let p = name_insert_pos(sorted, x, 0);
    lemma_name_insert_pos_bounds(sorted, x, 0);
    lemma_name_insert_pos(sorted, x, 0);
    let r = sorted.insert(p, x);
    assert forall|i: int, j: int| 0 <= i < j < r.len() implies !lex_lt(#[trigger] r[j], #[trigger] r[i]) by {
        if j < p {
            assert(r[i] == sorted[i] && r[j] == sorted[j]);
        } else if j == p {
            assert(r[i] == sorted[i]);
        } else if i > p {
            assert(r[i] == sorted[i - 1] && r[j] == sorted[j - 1]);
        } else if i == p {
            assert(r[j] == sorted[j - 1]);
            if lex_lt(r[j], x) {
                if j - 1 > p {
                    assert(!lex_lt(sorted[j - 1], sorted[p]));
                }
                lemma_lex_lt_transitive(sorted[j - 1], x, sorted[p]);
                crate::text::lemma_lex_lt_irreflexive(sorted[p]);
            }
        } else {
            assert(r[i] == sorted[i] && r[j] == sorted[j - 1]);
        }
    }
}

/// The profile list is in ascending string order and holds exactly the
/// listed names.
pub proof fn law_sort_names(s: Seq<Seq<char>>)
    ensures
        names_sorted(sort_names(s)),
        sort_names(s).len() == s.len(),
        forall|y: Seq<char>| sort_names(s).contains(y) <==> s.contains(y),
    decreases s.len(),
{
    if s.len() > 0 {
        let rest = s.drop_last();
        law_sort_names(rest);
        let sorted = sort_names(rest);
        lemma_insert_keeps_sorted(sorted, s.last());
        lemma_name_insert_pos_bounds(sorted, s.last(), 0);
        let p = name_insert_pos(sorted, s.last(), 0);
        assert forall|y: Seq<char>| sort_names(s).contains(y) <==> s.contains(y) by {
            lemma_seq_insert_contains(sorted, p, s.last(), y);
            lemma_seq_drop_last_contains(s, y);
        }
    }
}

fn insert_name(v: &mut Vec<String>, x: String)
    ensures
        strings_view(final(v)@) == strings_view(old(v)@).insert(
            name_insert_pos(strings_view(old(v)@), x@, 0),
            x@,
        ),
{
    let ghost sorted = strings_view(v@);
    let mut k: usize = 0;
    while k < v.len() && !string_lt(&x, &v[k])
        invariant
            k <= v@.len(),
            sorted == strings_view(v@),
            name_insert_pos(sorted, x@, 0) == name_insert_pos(sorted, x@, k as int),
        decreases v@.len() - k,
    {
        k = k + 1;
    }
    proof {
        lemma_name_insert_pos_bounds(sorted, x@, k as int);
    }
    let ghost xv = x@;
    v.insert(k, x);
    proof {
        assert(strings_view(v@) =~= sorted.insert(k as int, xv));
    }
}

fn stem_of(f: &String) -> (r: Option<String>)
    ensures
        opt_view_str(r) == json_stem(f@),
{
    proof {
        reveal_strlit(".json");
    }
    let cs = chars_of(f.as_str());
    let ext = chars_of(PROFILE_EXTENSION);
    let n = cs.len();
    let e = ext.len();
    if n <= e {
        return None;
    }
    let mut i: usize = 0;
    while i < e
        invariant
            e == ext@.len(),
            n == cs@.len(),
            cs@ == f@,
            ext@ == PROFILE_EXTENSION@,
            n > e,
            i <= e,
            forall|j: int| 0 <= j < i ==> cs@[n - e + j] == ext@[j],
        decreases e - i,
    {
        if cs[n - e + i] != ext[i] {
            assert(cs@.subrange(n - e, n as int)[i as int] != ext@[i as int]);
            assert(cs@.subrange(n - e, n as int) != ext@);
            return None;
        }
        i = i + 1;
    }
    assert(cs@.subrange(n - e, n as int) =~= ext@);
    Some(string_from_chars(cs.as_slice(), 0, n - e))
}

/// A saved profile is listed under its sanitized name: the file name it
/// is stored under is recognised as a profile file of that name.
pub proof fn law_saved_profile_is_listed(name: Seq<char>)
    ensures
        json_stem(spec_sanitize(name) + PROFILE_EXTENSION@) == Some(spec_sanitize(name)),
{
    law_sanitized_shape(name);
    let s = spec_sanitize(name);
    let f = s + PROFILE_EXTENSION@;
    assert(f.subrange(f.len() - PROFILE_EXTENSION@.len(), f.len() as int) =~= PROFILE_EXTENSION@);
    assert(f.subrange(0, f.len() - PROFILE_EXTENSION@.len()) =~= s);
}

/// Names that sanitize alike share one file: a sanitized name is stored
/// where the unsanitized name is.
pub proof fn law_file_name_of_sanitized(name: Seq<char>)
    ensures
        spec_sanitize(spec_sanitize(name)) + PROFILE_EXTENSION@ == spec_sanitize(name) + PROFILE_EXTENSION@,
{
    law_sanitize_idempotent(name);
}

/// View of an optional string.
pub open spec fn opt_view_str(o: Option<String>) -> Option<Seq<char>> {
    crate::model::opt_view(o)
}

/// The profiles among the file names of the profiles directory, sorted:
/// each "{name}.json" gives "{name}".
pub fn profile_names(files: &[String]) -> (r: Vec<String>)
    ensures
        strings_view(r@) == sort_names(json_stems(files@, files@.len() as int)),
{
    let mut names: Vec<String> = Vec::new();
    let mut i: usize = 0;
    while i < files.len()
        invariant
            i <= files@.len(),
            strings_view(names@) == sort_names(json_stems(files@, i as int)),
        decreases files@.len() - i,
    {
        let ghost before = json_stems(files@, i as int);
        match stem_of(&files[i]) {
            Some(stem) => {
                proof {
                    assert(json_stems(files@, i + 1) == before.push(stem@));
                    assert(before.push(stem@).drop_last() =~= before);
                }
                insert_name(&mut names, stem);
            },
            None => {},
        }
        i = i + 1;
    }
    names
}

} // verus!
