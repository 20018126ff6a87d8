//! Physical keyboard detection.
//!
//! The Windows Raw Input API enumerates devices and reports, per device, its
//! path and a device-info record. This module holds what is decided from
//! those values: which entries are keyboards, their vendor/product ids, the
//! display name and the final, de-duplicated and sorted keyboard list.

use vstd::prelude::*;

use crate::model::{KeyboardDevice, KeyboardDeviceView};
use crate::text::{
    chars_of, contains_seq, find_chars, find_from, hex_padded, lex_lt, ascii_lowercase,
    contains_chars, lemma_lex_lt_irreflexive, lemma_lex_lt_transitive, lemma_seq_drop_last_contains,
    lemma_seq_insert_contains, push_char, push_hex_padded, push_str, string_from_chars,
    string_lt,
};

verus! {

/// `RIM_TYPEKEYBOARD`: the device is a keyboard.
pub const RIM_TYPEKEYBOARD: u32 = 1;

/// `RIM_TYPEHID`: the device is a generic HID device.
pub const RIM_TYPEHID: u32 = 2;

pub const USAGE_PAGE_GENERIC_DESKTOP: u16 = 0x01;

pub const USAGE_KEYBOARD: u16 = 0x06;

/// The part of a Raw Input device-info record that keyboard detection reads.
#[derive(Debug, Clone, Copy, PartialEq, Eq, Structural)]
pub struct RawDeviceInfo {
    pub dw_type: u32,
    pub hid_usage_page: u16,
    pub hid_usage: u16,
    pub hid_vendor_id: u32,
    pub hid_product_id: u32,
}

/// One entry of the Raw Input device list: its handle, and its path and
/// device info when the system could report them.
#[derive(Debug, Clone)]
pub struct RawDevice {
    pub handle: usize,
    pub path: Option<String>,
    pub info: Option<RawDeviceInfo>,
}

pub open spec fn spec_is_keyboard_type(info: RawDeviceInfo) -> bool {
    if info.dw_type == RIM_TYPEKEYBOARD {
        true
    } else if info.dw_type == RIM_TYPEHID {
        info.hid_usage_page == USAGE_PAGE_GENERIC_DESKTOP && info.hid_usage == USAGE_KEYBOARD
    } else {
        false
    }
}

/// A keyboard, or a HID device on the generic-desktop/keyboard usage.
pub fn is_keyboard_type(info: &RawDeviceInfo) -> (r: bool)
    ensures
        r == spec_is_keyboard_type(*info),
{
    if info.dw_type == RIM_TYPEKEYBOARD {
        true
    } else if info.dw_type == RIM_TYPEHID {
        info.hid_usage_page == USAGE_PAGE_GENERIC_DESKTOP && info.hid_usage == USAGE_KEYBOARD
    } else {
        false
    }
}

// ---------------------------------------------------------------------------
// Vendor / product id
// ---------------------------------------------------------------------------

pub open spec fn is_hex_digit(c: char) -> bool {
    let u = c as u32;
    (48 <= u <= 57) || (65 <= u <= 70) || (97 <= u <= 102)
}

pub open spec fn hex_digit_value(c: char) -> nat {
    let u = c as u32;
    if 48 <= u <= 57 {
        (u - 48) as nat
    } else if 65 <= u <= 70 {
        (u - 55) as nat
    } else {
        (u - 87) as nat
    }
}

/// Value of a run of hex digits.
pub open spec fn hex_value(s: Seq<char>) -> nat
    decreases s.len(),
{
    if s.len() == 0 {
        0
    } else {
        hex_value(s.drop_last()) * 16 + hex_digit_value(s.last())
    }
}

pub open spec fn all_hex(d: Seq<char>) -> bool {
    forall|i: int| 0 <= i < d.len() ==> is_hex_digit(#[trigger] d[i])
}

/// `u32::from_str_radix(s, 16)` for strings of at most four characters: an
/// optional `+` followed by one or more hex digits.
pub open spec fn parse_hex_field(s: Seq<char>) -> Option<u32> {
    let d = if s.len() > 0 && s[0] == '+' {
        s.drop_first()
    } else {
        s
    };
    if d.len() > 0 && all_hex(d) {
        Some(hex_value(d) as u32)
    } else {
        None
    }
}

pub open spec fn vid_marker() -> Seq<char> {
    seq!['V', 'I', 'D', '_']
}

pub open spec fn pid_marker() -> Seq<char> {
    seq!['P', 'I', 'D', '_']
}

/// The 4-character hex field right after the first `marker` in `path`, or 0
/// when the marker is missing, fewer than four characters follow it or they
/// are not a hex number.
pub open spec fn marker_field(path: Seq<char>, marker: Seq<char>) -> u32 {
    match find_from(path, marker, 0) {
        Some(i) => {
            let j = i + marker.len();
            if j + 4 <= path.len() {
                match parse_hex_field(path.subrange(j, j + 4)) {
                    Some(v) => v,
                    None => 0,
                }
            } else {
                0
            }
        },
        None => 0,
    }
}

pub open spec fn spec_parse_vid_pid(path: Seq<char>) -> (u32, u32) {
    (marker_field(path, vid_marker()), marker_field(path, pid_marker()))
}

fn hex_digit_of(c: char) -> (r: Option<u32>)
    ensures
        r is Some <==> is_hex_digit(c),
        r is Some ==> r->0 == hex_digit_value(c) && r->0 < 16,
{
    let u = c as u32;
    if 48 <= u && u <= 57 {
        Some(u - 48)
    } else if 65 <= u && u <= 70 {
        Some(u - 55)
    } else if 97 <= u && u <= 102 {
        Some(u - 87)
    } else {
        None
    }
}

/// Parse `cs[from..from + 4]` as in `parse_hex_field`.
fn parse_hex4(cs: &[char], from: usize) -> (r: Option<u32>)
    requires
        from + 4 <= cs@.len(),
    ensures
        r == parse_hex_field(cs@.subrange(from as int, from + 4)),
{
    let ghost s = cs@.subrange(from as int, from + 4);
    let mut start = from;
    if cs[from] == '+' {
        start = from + 1;
    }
    let ghost d = cs@.subrange(start as int, from + 4);
    proof {
        if s[0] == '+' {
            assert(d =~= s.drop_first());
        } else {
            assert(d =~= s);
        }
    }
    let n = cs.len();
    let end = from + 4;
    let mut value: u32 = 0;
    let mut i: usize = start;
    while i < end
        invariant
            from <= start <= i <= from + 4,
            start <= from + 1,
            from + 4 <= cs@.len(),
            s == cs@.subrange(from as int, from + 4),
            d == cs@.subrange(start as int, from + 4),
            s[0] == '+' ==> d == s.drop_first(),
            s[0] != '+' ==> d == s,
            forall|k: int| start <= k < i ==> is_hex_digit(#[trigger] cs@[k]),
            value == hex_value(cs@.subrange(start as int, i as int)),
            end == from + 4,
            i - start <= 4,
            i - start == 0 ==> value == 0,
            i - start == 1 ==> value < 16,
            i - start == 2 ==> value < 256,
            i - start == 3 ==> value < 4096,
            value < 65536,
        decreases from + 4 - i,
    {
        match hex_digit_of(cs[i]) {
            Some(v) => {
                proof {
                    let cur = cs@.subrange(start as int, i + 1);
                    assert(cur.drop_last() =~= cs@.subrange(start as int, i as int));
                    assert(cur.last() == cs@[i as int]);
                }
                value = value * 16 + v;
                i = i + 1;
            },
            None => {
                proof {
                    assert(d[i - start] == cs@[i as int]);
                    assert(!is_hex_digit(d[i - start]));
                }
                return None;
            },
        }
    }
    proof {
        assert(cs@.subrange(start as int, i as int) =~= d);
        assert forall|k: int| 0 <= k < d.len() implies is_hex_digit(#[trigger] d[k]) by {
            assert(d[k] == cs@[start + k]);
        }
    }
    if start == end {
        return None;
    }
    Some(value)
}

/// The hex field after `marker` (see `marker_field`).
fn hex_at(cs: &[char], marker: &[char]) -> (r: u32)
    ensures
        r == marker_field(cs@, marker@),
{
    match find_chars(cs, marker) {
        Some(i) => {
            proof {
                crate::text::lemma_find_from_some(cs@, marker@, 0);
            }
            if marker.len() <= cs.len() - i && 4 <= cs.len() - i - marker.len() {
                match parse_hex4(cs, i + marker.len()) {
                    Some(v) => v,
                    None => 0,
                }
            } else {
                proof {
                    crate::text::lemma_find_from_some(cs@, marker@, 0);
                }
                0
            }
        },
        None => 0,
    }
}

/// Extract vendor/product id from a Windows device path such as
/// `\\?\USB#VID_046D&PID_C52B#6&2a3b4c&0&1#{...}`.
///
/// Panic-free by construction: a path that ends right after (or inside) the
/// `VID_`/`PID_` marker, or a non-hex field, yields 0 for that id.
pub fn parse_vid_pid(path: &str) -> (r: (u32, u32))
    ensures
        r == spec_parse_vid_pid(path@),
{
    let cs = chars_of(path);
    let vid_m: Vec<char> = vec!['V', 'I', 'D', '_'];
    let pid_m: Vec<char> = vec!['P', 'I', 'D', '_'];
    proof {
        assert(vid_m@ =~= vid_marker());
        assert(pid_m@ =~= pid_marker());
    }
    (hex_at(&cs, &vid_m), hex_at(&cs, &pid_m))
}

// ---------------------------------------------------------------------------
// Display names
// ---------------------------------------------------------------------------

/// End (exclusive) of the `#`-separated piece of `s` that starts at `i`.
pub open spec fn piece_end(s: Seq<char>, i: int) -> int
    decreases s.len() - i,
{
    if i >= s.len() {
        s.len() as int
    } else if s[i] == '#' {
        i
    } else {
        piece_end(s, i + 1)
    }
}

pub proof fn lemma_piece_end(s: Seq<char>, i: int)
    requires
        0 <= i <= s.len(),
    ensures
        i <= piece_end(s, i) <= s.len(),
        piece_end(s, i) < s.len() ==> s[piece_end(s, i)] == '#',
        forall|k: int| i <= k < piece_end(s, i) ==> s[k] != '#',
    decreases s.len() - i,
{
    if i < s.len() && s[i] != '#' {
        lemma_piece_end(s, i + 1);
    }
}

/// A `#` piece that names something: not empty and not a `{...}` class GUID.
pub open spec fn meaningful(piece: Seq<char>) -> bool {
    piece.len() > 0 && piece[0] != '{'
}

/// `later` if there is one, else `earlier`.
pub open spec fn last_or(later: Option<Seq<char>>, earlier: Option<Seq<char>>) -> Option<Seq<char>> {
    match later {
        Some(p) => Some(p),
        None => earlier,
    }
}

/// The last meaningful `#`-separated piece of `s` among the pieces that
/// start at or after `i`.
pub open spec fn segment_from(s: Seq<char>, i: int) -> Option<Seq<char>>
    decreases s.len() + 1 - i,
{
    if i < 0 || i > s.len() {
        None
    } else {
        let e = piece_end(s, i);
        let piece = s.subrange(i, e);
        let here = if meaningful(piece) {
            Some(piece)
        } else {
            None
        };
        if e >= s.len() {
            here
        } else {
            proof {
                lemma_piece_end(s, i);
            }
            last_or(segment_from(s, e + 1), here)
        }
    }
}

/// Index of the last `c` in `s[..n]`, or -1.
pub open spec fn last_index_of(s: Seq<char>, c: char, n: int) -> int
    decreases n,
{
    if n <= 0 {
        -1
    } else if s[n - 1] == c {
        n - 1
    } else {
        last_index_of(s, c, n - 1)
    }
}

/// `s.rsplit('\\').next()`: the part after the last backslash.
pub open spec fn after_last_backslash(s: Seq<char>) -> Seq<char> {
    s.skip(last_index_of(s, '\\', s.len() as int) + 1)
}

pub open spec fn keyboard_word() -> Seq<char> {
    seq!['K', 'e', 'y', 'b', 'o', 'a', 'r', 'd']
}

pub open spec fn keyboard_word_lower() -> Seq<char> {
    seq!['k', 'e', 'y', 'b', 'o', 'a', 'r', 'd']
}

/// `"Keyboard (" + inner + ")"`.
pub open spec fn keyboard_paren(inner: Seq<char>) -> Seq<char> {
    keyboard_word() + seq![' ', '('] + inner + seq![')']
}

/// Human readable name of a keyboard: `Keyboard (VVVV:PPPP)` when the vendor
/// id is known, else the last meaningful path segment (e.g. `PNP0303` of
/// `ACPI#PNP0303`), wrapped in `Keyboard (...)` unless it already says
/// "keyboard".
pub open spec fn spec_friendly_name(path: Seq<char>, vid: u32, pid: u32) -> Seq<char> {
    if vid != 0 {
        keyboard_paren(hex_padded(vid as nat, 4) + seq![':'] + hex_padded(pid as nat, 4))
    } else {
        let segment = match segment_from(path, 0) {
            Some(p) => after_last_backslash(p),
            None => keyboard_word(),
        };
        if contains_seq(ascii_lowercase(segment), keyboard_word_lower()) {
            segment
        } else {
            keyboard_paren(segment)
        }
    }
}

fn push_keyboard_open(s: &mut String)
    ensures
        final(s)@ == old(s)@ + keyboard_word() + seq![' ', '('],
{
    push_str(s, "Keyboard (");
    proof {
        reveal_strlit("Keyboard (");
        assert(old(s)@ + "Keyboard ("@ =~= old(s)@ + keyboard_word() + seq![' ', '(']);
    }
}

/// View of optional index bounds into `cs`.
pub open spec fn bounds_view(cs: Seq<char>, r: Option<(usize, usize)>) -> Option<Seq<char>> {
    match r {
        Some((a, b)) => Some(cs.subrange(a as int, b as int)),
        None => None,
    }
}

/// The last meaningful `#` piece of `cs`, as index bounds.
fn find_segment(cs: &[char]) -> (r: Option<(usize, usize)>)
    ensures
        match r {
            Some((a, b)) => a <= b <= cs@.len(),
            None => true,
        },
        bounds_view(cs@, r) == segment_from(cs@, 0),
{
    let n = cs.len();
    let mut i: usize = 0;
    let mut best: Option<(usize, usize)> = None;
    loop
        invariant
            n == cs@.len(),
            i <= n,
            match best {
                Some((a, b)) => a <= b <= n,
                None => true,
            },
            segment_from(cs@, 0) == last_or(segment_from(cs@, i as int), bounds_view(cs@, best)),
        decreases n - i,
    {
        let mut e = i;
        while e < n && cs[e] != '#'
            invariant
                i <= e <= n,
                n == cs@.len(),
                forall|k: int| i <= k < e ==> cs@[k] != '#',
            decreases n - e,
        {
            e = e + 1;
        }
        proof {
            lemma_piece_end(cs@, i as int);
            lemma_piece_end_exact(cs@, i as int, e as int);
        }
        if e > i && cs[i] != '{' {
            best = Some((i, e));
        }
        if e >= n {
            return best;
        }
        i = e + 1;
    }
}

proof fn lemma_piece_end_exact(s: Seq<char>, i: int, e: int)
    requires
        0 <= i <= e <= s.len(),
        forall|k: int| i <= k < e ==> s[k] != '#',
        e < s.len() ==> s[e] == '#',
    ensures
        piece_end(s, i) == e,
    decreases e - i,
{
    if i < e {
        lemma_piece_end_exact(s, i + 1, e);
    }
}

/// Index just after the last backslash of `cs[a..b]` (or `a`).
fn after_backslash(cs: &[char], a: usize, b: usize) -> (r: usize)
    requires
        a <= b <= cs@.len(),
    ensures
        a <= r <= b,
        cs@.subrange(r as int, b as int) == after_last_backslash(cs@.subrange(a as int, b as int)),
{
    let ghost p = cs@.subrange(a as int, b as int);
    let mut k: usize = b;
    while k > a && cs[k - 1] != '\\'
        invariant
            a <= k <= b,
            b <= cs@.len(),
            p == cs@.subrange(a as int, b as int),
            last_index_of(p, '\\', p.len() as int) == last_index_of(p, '\\', k - a),
        decreases k,
    {
        proof {
            assert(p[k - a - 1] == cs@[k - 1]);
        }
        k = k - 1;
    }
    proof {
        if k > a {
            assert(p[k - a - 1] == cs@[k - 1]);
        }
        assert(p.skip(last_index_of(p, '\\', p.len() as int) + 1) =~= cs@.subrange(k as int, b as int));
    }
    k
}

/// Human readable name of a keyboard (see `spec_friendly_name`).
pub fn friendly_name(path: &str, vid: u32, pid: u32) -> (r: String)
    ensures
        r@ == spec_friendly_name(path@, vid, pid),
{
    let mut s = String::new();
    if vid != 0 {
        push_keyboard_open(&mut s);
        push_hex_padded(&mut s, vid, 4);
        push_char(&mut s, ':');
        push_hex_padded(&mut s, pid, 4);
        push_char(&mut s, ')');
        proof {
            assert(s@ =~= spec_friendly_name(path@, vid, pid));
        }
        return s;
    }
    let cs = chars_of(path);
    let segment: Vec<char> = match find_segment(&cs) {
        Some((a, b)) => {
            let k = after_backslash(&cs, a, b);
            let mut v: Vec<char> = Vec::new();
            let mut i = k;
            while i < b
                invariant
                    k <= i <= b,
                    b <= cs@.len(),
                    v@ == cs@.subrange(k as int, i as int),
                decreases b - i,
            {
                v.push(cs[i]);
                i = i + 1;
                proof {
                    assert(v@ =~= cs@.subrange(k as int, i as int));
                }
            }
            v
        },
        None => {
            let v: Vec<char> = vec!['K', 'e', 'y', 'b', 'o', 'a', 'r', 'd'];
            proof {
                assert(v@ =~= keyboard_word());
            }
            v
        },
    };
    let mut lower: Vec<char> = Vec::new();
    let mut i: usize = 0;
    while i < segment.len()
        invariant
            i <= segment@.len(),
            lower@ == ascii_lowercase(segment@).take(i as int),
        decreases segment@.len() - i,
    {
        let c = segment[i];
        let u = c as u32;
        let l = if 65 <= u && u <= 90 {
            ((u + 32) as u8) as char
        } else {
            c
        };
        lower.push(l);
        i = i + 1;
        proof {
            assert(lower@ =~= ascii_lowercase(segment@).take(i as int));
        }
    }
    proof {
        assert(lower@ =~= ascii_lowercase(segment@));
    }
    let needle: Vec<char> = vec!['k', 'e', 'y', 'b', 'o', 'a', 'r', 'd'];
    proof {
        assert(needle@ =~= keyboard_word_lower());
    }
    let seg = string_from_chars(&segment, 0, segment.len());
    proof {
        assert(segment@.subrange(0, segment@.len() as int) =~= segment@);
    }
    if contains_chars(&lower, &needle) {
        seg
    } else {
        push_keyboard_open(&mut s);
        push_str(&mut s, seg.as_str());
        push_char(&mut s, ')');
        proof {
            assert(s@ =~= keyboard_paren(segment@));
        }
        s
    }
}

// ---------------------------------------------------------------------------
// Keyboard list
// ---------------------------------------------------------------------------

/// The entry has a path and device info and is a keyboard.
pub open spec fn is_candidate(e: RawDevice) -> bool {
    e.path is Some && e.info is Some && spec_is_keyboard_type(e.info->0)
}

/// An earlier candidate entry (before index `n`) has the same path.
pub open spec fn path_seen_before(es: Seq<RawDevice>, n: int) -> bool {
    exists|j: int|
        0 <= j < n && is_candidate(#[trigger] es[j]) && es[j].path->0@ == es[n].path->0@
}

/// Vendor/product id of a candidate: parsed from the path, or taken from the
/// HID info when the path names none.
pub open spec fn device_ids(e: RawDevice) -> (u32, u32) {
    let (vid, pid) = spec_parse_vid_pid(e.path->0@);
    if vid == 0 && pid == 0 && e.info->0.dw_type == RIM_TYPEHID {
        (e.info->0.hid_vendor_id, e.info->0.hid_product_id)
    } else {
        (vid, pid)
    }
}

/// The listed keyboard for a candidate entry: (handle, device).
pub open spec fn device_entry(e: RawDevice) -> (usize, KeyboardDeviceView) {
    let path = e.path->0@;
    let (vid, pid) = device_ids(e);
    (
        e.handle,
        KeyboardDeviceView {
            id: path,
            name: spec_friendly_name(path, vid, pid),
            vendor_id: vid,
            product_id: pid,
            path,
        },
    )
}

/// The keyboards among the first `n` entries, in entry order, keeping the
/// first entry of each path (HID keyboards often register twice).
pub open spec fn kept_devices(es: Seq<RawDevice>, n: int) -> Seq<(usize, KeyboardDeviceView)>
    decreases n,
{
    if n <= 0 {
        seq![]
    } else {
        let prev = kept_devices(es, n - 1);
        if is_candidate(es[n - 1]) && !path_seen_before(es, n - 1) {
            prev.push(device_entry(es[n - 1]))
        } else {
            prev
        }
    }
}

/// Position at which `x` is inserted into `sorted` by a stable sort on
/// names: after every entry whose name is not greater than `x`'s.
pub open spec fn insert_pos(sorted: Seq<(usize, KeyboardDeviceView)>, x: (usize, KeyboardDeviceView), k: int) -> int
    decreases sorted.len() - k,
{
    if k < 0 || k >= sorted.len() {
        sorted.len() as int
    } else if lex_lt(x.1.name, sorted[k].1.name) {
        k
    } else {
        insert_pos(sorted, x, k + 1)
    }
}

/// Stable sort by name (insertion order among equal names is kept).
pub open spec fn sort_by_name(s: Seq<(usize, KeyboardDeviceView)>) -> Seq<(usize, KeyboardDeviceView)>
    decreases s.len(),
{
    if s.len() == 0 {
        s
    } else {
        let sorted = sort_by_name(s.drop_last());
        sorted.insert(insert_pos(sorted, s.last(), 0), s.last())
    }
}

/// No later device has a smaller name than an earlier one.
pub open spec fn sorted_by_name(s: Seq<(usize, KeyboardDeviceView)>) -> bool {
    forall|i: int, j: int| 0 <= i < j < s.len() ==> !lex_lt((#[trigger] s[j]).1.name, (#[trigger] s[i]).1.name)
}

proof fn lemma_insert_pos(sorted: Seq<(usize, KeyboardDeviceView)>, x: (usize, KeyboardDeviceView), k: int)
    requires
        0 <= k <= sorted.len(),
    ensures
        forall|i: int| k <= i < insert_pos(sorted, x, k) ==> !lex_lt(x.1.name, (#[trigger] sorted[i]).1.name),
        insert_pos(sorted, x, k) < sorted.len() ==> lex_lt(x.1.name, sorted[insert_pos(sorted, x, k)].1.name),
    decreases sorted.len() - k,
{
    if k < sorted.len() && !lex_lt(x.1.name, sorted[k].1.name) {
        lemma_insert_pos(sorted, x, k + 1);
    }
}

proof fn lemma_insert_keeps_sorted(sorted: Seq<(usize, KeyboardDeviceView)>, x: (usize, KeyboardDeviceView))
    requires
        sorted_by_name(sorted),
    ensures
        sorted_by_name(sorted.insert(insert_pos(sorted, x, 0), x)),
{
    let p = insert_pos(sorted, x, 0);
    lemma_insert_pos_bounds(sorted, x, 0);
    lemma_insert_pos(sorted, x, 0);
    let r = sorted.insert(p, x);
    assert forall|i: int, j: int| 0 <= i < j < r.len() implies !lex_lt((#[trigger] r[j]).1.name, (#[trigger] r[i]).1.name) by {
        if j < p {
            assert(r[i] == sorted[i] && r[j] == sorted[j]);
        } else if j == p {
            assert(r[i] == sorted[i]);
        } else if i > p {
            assert(r[i] == sorted[i - 1] && r[j] == sorted[j - 1]);
        } else if i == p {
            assert(r[j] == sorted[j - 1]);
            if lex_lt(r[j].1.name, x.1.name) {
                if j - 1 > p {
                    assert(!lex_lt(sorted[j - 1].1.name, sorted[p].1.name));
                }
                lemma_lex_lt_transitive(sorted[j - 1].1.name, x.1.name, sorted[p].1.name);
                lemma_lex_lt_irreflexive(sorted[p].1.name);
            }
        } else {
            assert(r[i] == sorted[i] && r[j] == sorted[j - 1]);
        }
    }
}

/// The device list is in ascending name order and holds exactly the kept
/// devices.
pub proof fn law_sort_by_name(s: Seq<(usize, KeyboardDeviceView)>)
    ensures
        sorted_by_name(sort_by_name(s)),
        sort_by_name(s).len() == s.len(),
        forall|y: (usize, KeyboardDeviceView)| sort_by_name(s).contains(y) <==> s.contains(y),
    decreases s.len(),
{
    if s.len() > 0 {
        let rest = s.drop_last();
        law_sort_by_name(rest);
        let sorted = sort_by_name(rest);
        lemma_insert_keeps_sorted(sorted, s.last());
        lemma_insert_pos_bounds(sorted, s.last(), 0);
        let p = insert_pos(sorted, s.last(), 0);
        assert forall|y: (usize, KeyboardDeviceView)| sort_by_name(s).contains(y) <==> s.contains(y) by {
            lemma_seq_insert_contains(sorted, p, s.last(), y);
            lemma_seq_drop_last_contains(s, y);
        }
    }
}

pub open spec fn entries_view(v: Seq<(usize, KeyboardDevice)>) -> Seq<(usize, KeyboardDeviceView)> {
    Seq::new(v.len(), |i: int| (v[i].0, v[i].1@))
}

proof fn lemma_insert_pos_bounds(sorted: Seq<(usize, KeyboardDeviceView)>, x: (usize, KeyboardDeviceView), k: int)
    requires
        0 <= k <= sorted.len(),
    ensures
        k <= insert_pos(sorted, x, k) <= sorted.len(),
    decreases sorted.len() - k,
{
    if k < sorted.len() && !lex_lt(x.1.name, sorted[k].1.name) {
        lemma_insert_pos_bounds(sorted, x, k + 1);
    }
}

pub open spec fn seen_has(seen: Seq<String>, p: Seq<char>) -> bool {
    exists|j: int| 0 <= j < seen.len() && seen[j]@ == p
}

/// A candidate among the first `n` entries has path `p`.
pub open spec fn candidate_path_before(es: Seq<RawDevice>, n: int, p: Seq<char>) -> bool {
    exists|j: int| 0 <= j < n && is_candidate(#[trigger] es[j]) && es[j].path->0@ == p
}

proof fn lemma_candidate_path_step(es: Seq<RawDevice>, i: int)
    requires
        0 <= i < es.len(),
    ensures
        forall|p: Seq<char>|
            #[trigger] candidate_path_before(es, i + 1, p) <==> (candidate_path_before(es, i, p) || (
            is_candidate(es[i]) && es[i].path->0@ == p)),
{
    assert forall|p: Seq<char>|
        #[trigger] candidate_path_before(es, i + 1, p) <==> (candidate_path_before(es, i, p) || (
        is_candidate(es[i]) && es[i].path->0@ == p)) by {
        if candidate_path_before(es, i + 1, p) {
            let j = choose|j: int| 0 <= j < i + 1 && is_candidate(#[trigger] es[j]) && es[j].path->0@ == p;
            if j < i {
                assert(candidate_path_before(es, i, p));
            }
        }
        if candidate_path_before(es, i, p) {
            let j = choose|j: int| 0 <= j < i && is_candidate(#[trigger] es[j]) && es[j].path->0@ == p;
            assert(0 <= j < i + 1);
        }
    }
}

proof fn lemma_seen_push(seen: Seq<String>, x: String)
    ensures
        forall|p: Seq<char>| #[trigger] seen_has(seen.push(x), p) <==> (seen_has(seen, p) || x@ == p),
{
    assert forall|p: Seq<char>| #[trigger] seen_has(seen.push(x), p) <==> (seen_has(seen, p) || x@ == p) by {
        let s2 = seen.push(x);
        if seen_has(s2, p) {
            let j = choose|j: int| 0 <= j < s2.len() && s2[j]@ == p;
            if j < seen.len() {
                assert(seen[j] == s2[j]);
            }
        }
        if seen_has(seen, p) {
            let j = choose|j: int| 0 <= j < seen.len() && seen[j]@ == p;
            assert(s2[j] == seen[j]);
        }
        if x@ == p {
            assert(s2[seen.len() as int] == x);
        }
    }
}

/// Is `path` among `seen`?
fn seen_contains(seen: &Vec<String>, path: &String) -> (r: bool)
    ensures
        r == seen_has(seen@, path@),
{
    let mut i: usize = 0;
    while i < seen.len()
        invariant
            i <= seen@.len(),
            forall|j: int| 0 <= j < i ==> seen@[j]@ != path@,
        decreases seen@.len() - i,
    {
        if seen[i] == *path {
            return true;
        }
        i = i + 1;
    }
    false
}

/// Insert `x` into `v` at its stable-sort position.
fn insert_sorted(v: &mut Vec<(usize, KeyboardDevice)>, x: (usize, KeyboardDevice))
    ensures
        entries_view(final(v)@) == entries_view(old(v)@).insert(
            insert_pos(entries_view(old(v)@), (x.0, x.1@), 0),
            (x.0, x.1@),
        ),
{
    let ghost sorted = entries_view(v@);
    let ghost xv = (x.0, x.1@);
    let mut k: usize = 0;
    while k < v.len() && !string_lt(&x.1.name, &v[k].1.name)
        invariant
            k <= v@.len(),
            sorted == entries_view(v@),
            xv == (x.0, x.1@),
            insert_pos(sorted, xv, 0) == insert_pos(sorted, xv, k as int),
        decreases v@.len() - k,
    {
        k = k + 1;
    }
    proof {
        lemma_insert_pos_bounds(sorted, xv, k as int);
        if k < v@.len() {
            assert(sorted[k as int].1.name == v@[k as int].1.name@);
        }
    }
    let ghost before = v@;
    v.insert(k, x);
    proof {
        assert(entries_view(v@) =~= sorted.insert(k as int, xv));
    }
}

/// The keyboards among raw input entries, each with its raw device handle
/// (the handle lets the capture side map key events back to a keyboard):
/// non-keyboards and entries without path or info are skipped, a path is
/// listed once, and the list is sorted by name (stable).
pub fn enumerate_with_handles(entries: &[RawDevice]) -> (r: Vec<(usize, KeyboardDevice)>)
    ensures
        entries_view(r@) == sort_by_name(kept_devices(entries@, entries@.len() as int)),
{
    let mut seen: Vec<String> = Vec::new();
    let mut sorted: Vec<(usize, KeyboardDevice)> = Vec::new();
    let mut i: usize = 0;
    while i < entries.len()
        invariant
            i <= entries@.len(),
            entries_view(sorted@) == sort_by_name(kept_devices(entries@, i as int)),
            forall|p: Seq<char>|
                #![trigger seen_has(seen@, p)]
                #![trigger candidate_path_before(entries@, i as int, p)]
                seen_has(seen@, p) <==> candidate_path_before(entries@, i as int, p),
        decreases entries@.len() - i,
    {
        let e = &entries[i];
        let ghost kept_before = kept_devices(entries@, i as int);
        let ghost seen_before = seen@;
        proof {
            lemma_candidate_path_step(entries@, i as int);
        }
        match (&e.path, &e.info) {
            (Some(path), Some(info)) => {
                if is_keyboard_type(info) {
                    let dup = seen_contains(&seen, path);
                    proof {
                        assert(seen_has(seen@, path@) == candidate_path_before(entries@, i as int, path@));
                        assert(path_seen_before(entries@, i as int) == candidate_path_before(entries@, i as int, path@));
                    }
                    if !dup {
                        let p2 = path.clone();
                        proof {
                            lemma_seen_push(seen@, p2);
                        }
                        seen.push(p2);
                        let (mut vid, mut pid) = parse_vid_pid(path.as_str());
                        if vid == 0 && pid == 0 && info.dw_type == RIM_TYPEHID {
                            vid = info.hid_vendor_id;
                            pid = info.hid_product_id;
                        }
                        let name = friendly_name(path.as_str(), vid, pid);
                        let device = KeyboardDevice {
                            id: path.clone(),
                            name,
                            vendor_id: vid,
                            product_id: pid,
                            path: path.clone(),
                        };
                        proof {
                            let x = device_entry(entries@[i as int]);
                            assert((e.handle, device@) == x);
                            assert(kept_devices(entries@, i + 1) == kept_before.push(x));
                            assert(kept_before.push(x).drop_last() =~= kept_before);
                        }
                        insert_sorted(&mut sorted, (e.handle, device));
                    }
                }
            },
            _ => {},
        }
        i = i + 1;
    }
    sorted
}

/// The keyboards among raw input entries, as `enumerate_with_handles`
/// lists them, without their handles.
pub fn enumerate(entries: &[RawDevice]) -> (r: Vec<KeyboardDevice>)
    ensures
        r@.len() == sort_by_name(kept_devices(entries@, entries@.len() as int)).len(),
        forall|i: int| 0 <= i < r@.len() ==> (#[trigger] r@[i])@ == sort_by_name(
            kept_devices(entries@, entries@.len() as int),
        )[i].1,
{
    let listed = enumerate_with_handles(entries);
    let mut r: Vec<KeyboardDevice> = Vec::new();
    let mut i: usize = 0;
    while i < listed.len()
        invariant
            i <= listed@.len(),
            r@.len() == i,
            entries_view(listed@) == sort_by_name(kept_devices(entries@, entries@.len() as int)),
            forall|j: int| 0 <= j < i ==> (#[trigger] r@[j])@ == listed@[j].1@,
        decreases listed@.len() - i,
    {
        r.push(listed[i].1.duplicate());
        i = i + 1;
    }
    proof {
        assert forall|j: int| 0 <= j < r@.len() implies (#[trigger] r@[j])@ == sort_by_name(
            kept_devices(entries@, entries@.len() as int),
        )[j].1 by {
            assert(entries_view(listed@)[j] == (listed@[j].0, listed@[j].1@));
        }
    }
    r
}

} // verus!
