//! Canonical physical-key naming.
//!
//! Raw Input reports Windows virtual-key codes (`VKey`). Because a mapping
//! profile should stay readable and stable across machines, every key is
//! stored under a canonical name such as `"W"`, `"Space"`, `"Left"`,
//! `"Num4"`, `"F5"`. The table below is layout agnostic - it refers to
//! physical US-layout positions (the same codes games poll).

use vstd::prelude::*;
use vstd::string::*;

use crate::input::devices::{hex_digit_value, hex_value, is_hex_digit};
use crate::text::{
    hex_upper, lemma_trim_no_spaces,
    chars_of, decimal, digit_char, hex_padded, push_char, push_decimal, push_hex_padded,
    str_eq, string_from_chars, trim, trim_bounds,
};

verus! {

/// Virtual key code of the *first* function key (F1).
pub const VK_F1: u16 = 0x70;

/// Virtual key code of the first main-row digit key.
pub const VK_DIGIT0: u16 = 0x30;

/// Virtual key code of the first letter key.
pub const VK_A: u16 = 0x41;

/// Number of keys that have a dedicated display name.
pub const NAMED_KEY_COUNT: usize = 55;

/// Entry `i` of the named-key table: (virtual key code, display name).
/// Lookup is linear in this order; the table is tiny.
pub open spec fn named_key(i: int) -> (u16, Seq<char>) {
    if i == 0 {
        (0x08, "Backspace"@)
    } else if i == 1 {
        (0x09, "Tab"@)
    } else if i == 2 {
        (0x0D, "Enter"@)
    } else if i == 3 {
        (0x13, "Pause"@)
    } else if i == 4 {
        (0x14, "CapsLock"@)
    } else if i == 5 {
        (0x1B, "Escape"@)
    } else if i == 6 {
        (0x20, "Space"@)
    } else if i == 7 {
        (0x21, "PageUp"@)
    } else if i == 8 {
        (0x22, "PageDown"@)
    } else if i == 9 {
        (0x23, "End"@)
    } else if i == 10 {
        (0x24, "Home"@)
    } else if i == 11 {
        (0x25, "Left"@)
    } else if i == 12 {
        (0x26, "Up"@)
    } else if i == 13 {
        (0x27, "Right"@)
    } else if i == 14 {
        (0x28, "Down"@)
    } else if i == 15 {
        (0x2C, "PrintScreen"@)
    } else if i == 16 {
        (0x2D, "Insert"@)
    } else if i == 17 {
        (0x2E, "Delete"@)
    } else if i == 18 {
        (0x5B, "LWin"@)
    } else if i == 19 {
        (0x5C, "RWin"@)
    } else if i == 20 {
        (0x5D, "Apps"@)
    } else if i == 21 {
        (0x60, "Num0"@)
    } else if i == 22 {
        (0x61, "Num1"@)
    } else if i == 23 {
        (0x62, "Num2"@)
    } else if i == 24 {
        (0x63, "Num3"@)
    } else if i == 25 {
        (0x64, "Num4"@)
    } else if i == 26 {
        (0x65, "Num5"@)
    } else if i == 27 {
        (0x66, "Num6"@)
    } else if i == 28 {
        (0x67, "Num7"@)
    } else if i == 29 {
        (0x68, "Num8"@)
    } else if i == 30 {
        (0x69, "Num9"@)
    } else if i == 31 {
        (0x6A, "NumMultiply"@)
    } else if i == 32 {
        (0x6B, "NumAdd"@)
    } else if i == 33 {
        (0x6C, "NumSeparator"@)
    } else if i == 34 {
        (0x6D, "NumSubtract"@)
    } else if i == 35 {
        (0x6E, "NumDecimal"@)
    } else if i == 36 {
        (0x6F, "NumDivide"@)
    } else if i == 37 {
        (0x90, "NumLock"@)
    } else if i == 38 {
        (0xA0, "LShift"@)
    } else if i == 39 {
        (0xA1, "RShift"@)
    } else if i == 40 {
        (0xA2, "LCtrl"@)
    } else if i == 41 {
        (0xA3, "RCtrl"@)
    } else if i == 42 {
        (0xA4, "LAlt"@)
    } else if i == 43 {
        (0xA5, "RAlt"@)
    } else if i == 44 {
        (0xBA, ";"@)
    } else if i == 45 {
        (0xBB, "="@)
    } else if i == 46 {
        (0xBC, ","@)
    } else if i == 47 {
        (0xBD, "-"@)
    } else if i == 48 {
        (0xBE, "."@)
    } else if i == 49 {
        (0xBF, "/"@)
    } else if i == 50 {
        (0xC0, "`"@)
    } else if i == 51 {
        (0xDB, "["@)
    } else if i == 52 {
        (0xDC, "\\"@)
    } else if i == 53 {
        (0xDD, "]"@)
    } else if i == 54 {
        (0xDE, "'"@)
    } else {
        (0, Seq::empty())
    }
}

fn named_key_entry(i: usize) -> (r: (u16, &'static str))
    requires
        i < NAMED_KEY_COUNT,
    ensures
        r.0 == named_key(i as int).0,
        r.1@ == named_key(i as int).1,
{
    match i {
        0 => (0x08, "Backspace"),
        1 => (0x09, "Tab"),
        2 => (0x0D, "Enter"),
        3 => (0x13, "Pause"),
        4 => (0x14, "CapsLock"),
        5 => (0x1B, "Escape"),
        6 => (0x20, "Space"),
        7 => (0x21, "PageUp"),
        8 => (0x22, "PageDown"),
        9 => (0x23, "End"),
        10 => (0x24, "Home"),
        11 => (0x25, "Left"),
        12 => (0x26, "Up"),
        13 => (0x27, "Right"),
        14 => (0x28, "Down"),
        15 => (0x2C, "PrintScreen"),
        16 => (0x2D, "Insert"),
        17 => (0x2E, "Delete"),
        18 => (0x5B, "LWin"),
        19 => (0x5C, "RWin"),
        20 => (0x5D, "Apps"),
        21 => (0x60, "Num0"),
        22 => (0x61, "Num1"),
        23 => (0x62, "Num2"),
        24 => (0x63, "Num3"),
        25 => (0x64, "Num4"),
        26 => (0x65, "Num5"),
        27 => (0x66, "Num6"),
        28 => (0x67, "Num7"),
        29 => (0x68, "Num8"),
        30 => (0x69, "Num9"),
        31 => (0x6A, "NumMultiply"),
        32 => (0x6B, "NumAdd"),
        33 => (0x6C, "NumSeparator"),
        34 => (0x6D, "NumSubtract"),
        35 => (0x6E, "NumDecimal"),
        36 => (0x6F, "NumDivide"),
        37 => (0x90, "NumLock"),
        38 => (0xA0, "LShift"),
        39 => (0xA1, "RShift"),
        40 => (0xA2, "LCtrl"),
        41 => (0xA3, "RCtrl"),
        42 => (0xA4, "LAlt"),
        43 => (0xA5, "RAlt"),
        44 => (0xBA, ";"),
        45 => (0xBB, "="),
        46 => (0xBC, ","),
        47 => (0xBD, "-"),
        48 => (0xBE, "."),
        49 => (0xBF, "/"),
        50 => (0xC0, "`"),
        51 => (0xDB, "["),
        52 => (0xDC, "\\"),
        53 => (0xDD, "]"),
        54 => (0xDE, "'"),
        _ => (0, ""),
    }
}

/// Name of the first table entry at or after `i` whose code is `vk`.
pub open spec fn find_code(vk: u16, i: int) -> Option<Seq<char>>
    decreases NAMED_KEY_COUNT - i,
{
    if i < 0 || i >= NAMED_KEY_COUNT {
        None
    } else if named_key(i).0 == vk {
        Some(named_key(i).1)
    } else {
        find_code(vk, i + 1)
    }
}

/// Code of the first table entry at or after `i` whose name is `name`.
pub open spec fn find_name(name: Seq<char>, i: int) -> Option<u16>
    decreases NAMED_KEY_COUNT - i,
{
    if i < 0 || i >= NAMED_KEY_COUNT {
        None
    } else if named_key(i).1 == name {
        Some(named_key(i).0)
    } else {
        find_name(name, i + 1)
    }
}

pub open spec fn is_upper_ascii(c: char) -> bool {
    65 <= c as u32 <= 90
}

pub open spec fn is_digit_ascii(c: char) -> bool {
    48 <= c as u32 <= 57
}

/// The canonical name of a virtual key code: digits and letters name
/// themselves, F1..F24 are `F<n>`, table keys use their table name and
/// everything else falls back to `VK_<hex>` (at least two uppercase hex
/// digits).
pub open spec fn spec_name_for_vk(vk: u16) -> Seq<char> {
    if VK_DIGIT0 <= vk <= VK_DIGIT0 + 9 {
        seq![digit_char(vk - VK_DIGIT0)]
    } else if VK_A <= vk <= VK_A + 25 {
        seq![(65 + (vk - VK_A)) as char]
    } else if VK_F1 <= vk <= VK_F1 + 23 {
        seq!['F'] + decimal((vk - VK_F1 + 1) as nat)
    } else {
        match find_code(vk, 0) {
            Some(name) => name,
            None => seq!['V', 'K', '_'] + hex_padded(vk as nat, 2),
        }
    }
}

/// Value of a run of ASCII decimal digits.
pub open spec fn digits_value(s: Seq<char>) -> nat
    decreases s.len(),
{
    if s.len() == 0 {
        0
    } else {
        digits_value(s.drop_last()) * 10 + (s.last() as u32 - 48) as nat
    }
}

pub open spec fn all_digits(s: Seq<char>) -> bool {
    forall|i: int| 0 <= i < s.len() ==> is_digit_ascii(#[trigger] s[i])
}

/// `u16::from_str`: an optional `+` followed by one or more ASCII digits
/// whose value fits in a u16.
pub open spec fn parse_u16(s: Seq<char>) -> Option<u16> {
    let d = if s.len() > 0 && s[0] == '+' {
        s.drop_first()
    } else {
        s
    };
    if d.len() > 0 && all_digits(d) && digits_value(d) <= u16::MAX {
        Some(digits_value(d) as u16)
    } else {
        None
    }
}

/// `t` is `"Num"` followed by one ASCII digit.
pub open spec fn is_num_digit_name(t: Seq<char>) -> bool {
    t.len() == 4 && t[0] == 'N' && t[1] == 'u' && t[2] == 'm' && is_digit_ascii(t[3])
}

/// The virtual key code for a (surrounding whitespace ignored) canonical
/// name, or `None`.
pub open spec fn spec_vk_for_name(name: Seq<char>) -> Option<u16> {
    let t = trim(name);
    if t.len() == 0 {
        None
    } else if t.len() == 1 && is_upper_ascii(t[0]) {
        Some((VK_A + (t[0] as u32 - 65)) as u16)
    } else if t.len() == 1 && is_digit_ascii(t[0]) {
        Some((VK_DIGIT0 + (t[0] as u32 - 48)) as u16)
    } else if t.len() >= 2 && t[0] == 'F' && parse_u16(t.drop_first()) is Some && 1
        <= parse_u16(t.drop_first())->0 <= 24 {
        Some((VK_F1 + parse_u16(t.drop_first())->0 - 1) as u16)
    } else if is_num_digit_name(t) {
        Some((0x60 + (t[3] as u32 - 48)) as u16)
    } else {
        find_name(t, 0)
    }
}

/// Convert a Windows virtual key code into a canonical name.
pub fn name_for_vk(vk: u16) -> (r: String)
    ensures
        r@ == spec_name_for_vk(vk),
{
    let mut s = String::new();
    if VK_DIGIT0 <= vk && vk <= VK_DIGIT0 + 9 {
        let b: u8 = 48u8 + ((vk - VK_DIGIT0) as u8);
        push_char(&mut s, b as char);
        return s;
    }
    if VK_A <= vk && vk <= VK_A + 25 {
        let b: u8 = 65u8 + ((vk - VK_A) as u8);
        push_char(&mut s, b as char);
        return s;
    }
    if VK_F1 <= vk && vk <= VK_F1 + 23 {
        push_char(&mut s, 'F');
        push_decimal(&mut s, (vk - VK_F1 + 1) as u64);
        return s;
    }
    let mut i: usize = 0;
    while i < NAMED_KEY_COUNT
        invariant
            i <= NAMED_KEY_COUNT,
            find_code(vk, 0) == find_code(vk, i as int),
        decreases NAMED_KEY_COUNT - i,
    {
        let (code, name) = named_key_entry(i);
        if code == vk {
            return name.to_string();
        }
        i = i + 1;
    }
    push_char(&mut s, 'V');
    push_char(&mut s, 'K');
    push_char(&mut s, '_');
    push_hex_padded(&mut s, vk as u32, 2);
    s
}

/// Parse the characters `cs[from..to]` as a u16 (see `parse_u16`).
fn parse_u16_chars(cs: &[char], from: usize, to: usize) -> (r: Option<u16>)
    requires
        from <= to <= cs@.len(),
    ensures
        r == parse_u16(cs@.subrange(from as int, to as int)),
{
    let ghost s = cs@.subrange(from as int, to as int);
    let mut start = from;
    if from < to && cs[from] == '+' {
        start = from + 1;
    }
    let ghost d = cs@.subrange(start as int, to as int);
    proof {
        if s.len() > 0 && s[0] == '+' {
            assert(d =~= s.drop_first());
        } else {
            assert(d =~= s);
        }
    }
    if start >= to {
        return None;
    }
    let mut value: u32 = 0;
    let mut i: usize = start;
    while i < to
        invariant
            start <= i <= to,
            from <= start,
            to <= cs@.len(),
            s == cs@.subrange(from as int, to as int),
            d == cs@.subrange(start as int, to as int),
            d.len() > 0,
            s.len() > 0 && s[0] == '+' ==> d == s.drop_first(),
            !(s.len() > 0 && s[0] == '+') ==> d == s,
            all_digits(cs@.subrange(start as int, i as int)),
            value == digits_value(cs@.subrange(start as int, i as int)),
            value <= u16::MAX,
        decreases to - i,
    {
        let c = cs[i];
        let u = c as u32;
        if !(48 <= u && u <= 57) {
            proof {
                assert(d[i - start] == c);
                assert(!is_digit_ascii(d[i - start]));
            }
            return None;
        }
        let ghost prev = cs@.subrange(start as int, i as int);
        let next = value * 10 + (u - 48);
        proof {
            let cur = cs@.subrange(start as int, i + 1);
            assert(cur.drop_last() =~= prev);
            assert(cur.last() == c);
            assert(digits_value(cur) == digits_value(prev) * 10 + (c as u32 - 48) as nat);
            assert forall|j: int| 0 <= j < cur.len() implies is_digit_ascii(#[trigger] cur[j]) by {
                if j < prev.len() {
                    assert(cur[j] == prev[j]);
                }
            }
        }
        if next > 65535 {
            proof {
                let cur = cs@.subrange(start as int, i + 1);
                assert(cur =~= d.take((i + 1 - start) as int));
                lemma_digits_value_prefix_monotone(d, (i + 1 - start) as int);
            }
            return None;
        }
        value = next;
        i = i + 1;
    }
    proof {
        assert(cs@.subrange(start as int, i as int) =~= d);
    }
    Some(value as u16)
}

/// Digit values only grow as digits are appended.
proof fn lemma_digits_value_prefix_monotone(d: Seq<char>, k: int)
    requires
        0 <= k <= d.len(),
    ensures
        digits_value(d.take(k)) <= digits_value(d),
    decreases d.len() - k,
{
    if k < d.len() {
        lemma_digits_value_prefix_monotone(d, k + 1);
        let t = d.take(k + 1);
        assert(t.drop_last() =~= d.take(k));
    } else {
        assert(d.take(k) =~= d);
    }
}

/// Convert a canonical name back into a Windows virtual key code.
pub fn vk_for_name(name: &str) -> (r: Option<u16>)
    ensures
        r == spec_vk_for_name(name@),
{
    let cs = chars_of(name);
    let (lo, hi) = trim_bounds(&cs);
    let ghost t = trim(name@);
    proof {
        assert(t =~= cs@.subrange(lo as int, hi as int));
    }
    if lo == hi {
        return None;
    }
    let n = hi - lo;
    let c0 = cs[lo];
    let u0 = c0 as u32;
    proof {
        assert(t[0] == c0);
        assert forall|k: int| 0 <= k < n implies t[k] == cs@[lo + k] by {}
    }
    if n == 1 {
        if 65 <= u0 && u0 <= 90 {
            return Some(VK_A + (u0 - 65) as u16);
        }
        if 48 <= u0 && u0 <= 57 {
            return Some(VK_DIGIT0 + (u0 - 48) as u16);
        }
    }
    if n >= 2 && c0 == 'F' {
        let parsed = parse_u16_chars(&cs, lo + 1, hi);
        proof {
            assert(cs@.subrange(lo + 1, hi as int) =~= t.drop_first());
        }
        match parsed {
            Some(k) => {
                if 1 <= k && k <= 24 {
                    return Some(VK_F1 + k - 1);
                }
            },
            None => {},
        }
    }
    if n == 4 {
        proof {
            assert(t[1] == cs@[lo + 1]);
            assert(t[2] == cs@[lo + 2]);
            assert(t[3] == cs@[lo + 3]);
        }
        let c3 = cs[lo + 3] as u32;
        if c0 == 'N' && cs[lo + 1] == 'u' && cs[lo + 2] == 'm' && 48 <= c3 && c3 <= 57 {
            return Some(0x60 + (c3 - 48) as u16);
        }
    }
    let trimmed = string_from_chars(&cs, lo, hi);
    assert(spec_vk_for_name(name@) == find_name(t, 0));
    let mut i: usize = 0;
    while i < NAMED_KEY_COUNT
        invariant
            i <= NAMED_KEY_COUNT,
            trimmed@ == t,
            t == trim(name@),
            spec_vk_for_name(name@) == find_name(t, 0),
            find_name(t, 0) == find_name(t, i as int),
        decreases NAMED_KEY_COUNT - i,
    {
        let (code, entry) = named_key_entry(i);
        if str_eq(entry, trimmed.as_str()) {
            return Some(code);
        }
        i = i + 1;
    }
    None
}

/// Entry `k` of the named-key table round-trips: its name maps back to its
/// code, and its code is found at `k` (no earlier entry shares it).
proof fn lemma_named_entry_round_trip(k: int)
    requires
        0 <= k < NAMED_KEY_COUNT,
    ensures
        find_code(named_key(k).0, 0) == Some(named_key(k).1),
        spec_vk_for_name(named_key(k).1) == Some(named_key(k).0),
{
    reveal_strlit("Backspace");
    reveal_strlit("Tab");
    reveal_strlit("Enter");
    reveal_strlit("Pause");
    reveal_strlit("CapsLock");
    reveal_strlit("Escape");
    reveal_strlit("Space");
    reveal_strlit("PageUp");
    reveal_strlit("PageDown");
    reveal_strlit("End");
    reveal_strlit("Home");
    reveal_strlit("Left");
    reveal_strlit("Up");
    reveal_strlit("Right");
    reveal_strlit("Down");
    reveal_strlit("PrintScreen");
    reveal_strlit("Insert");
    reveal_strlit("Delete");
    reveal_strlit("LWin");
    reveal_strlit("RWin");
    reveal_strlit("Apps");
    reveal_strlit("Num0");
    reveal_strlit("Num1");
    reveal_strlit("Num2");
    reveal_strlit("Num3");
    reveal_strlit("Num4");
    reveal_strlit("Num5");
    reveal_strlit("Num6");
    reveal_strlit("Num7");
    reveal_strlit("Num8");
    reveal_strlit("Num9");
    reveal_strlit("NumMultiply");
    reveal_strlit("NumAdd");
    reveal_strlit("NumSeparator");
    reveal_strlit("NumSubtract");
    reveal_strlit("NumDecimal");
    reveal_strlit("NumDivide");
    reveal_strlit("NumLock");
    reveal_strlit("LShift");
    reveal_strlit("RShift");
    reveal_strlit("LCtrl");
    reveal_strlit("RCtrl");
    reveal_strlit("LAlt");
    reveal_strlit("RAlt");
    reveal_strlit(";");
    reveal_strlit("=");
    reveal_strlit(",");
    reveal_strlit("-");
    reveal_strlit(".");
    reveal_strlit("/");
    reveal_strlit("`");
    reveal_strlit("[");
    reveal_strlit("\\");
    reveal_strlit("]");
    reveal_strlit("'");
    assert(named_key(0).1.len() == 9);
    assert(named_key(1).1.len() == 3);
    assert(named_key(2).1.len() == 5);
    assert(named_key(3).1.len() == 5);
    assert(named_key(4).1.len() == 8);
    assert(named_key(5).1.len() == 6);
    assert(named_key(6).1.len() == 5);
    assert(named_key(7).1.len() == 6);
    assert(named_key(8).1.len() == 8);
    assert(named_key(9).1.len() == 3);
    assert(named_key(10).1.len() == 4);
    assert(named_key(11).1.len() == 4);
    assert(named_key(12).1.len() == 2);
    assert(named_key(13).1.len() == 5);
    assert(named_key(14).1.len() == 4);
    assert(named_key(15).1.len() == 11);
    assert(named_key(16).1.len() == 6);
    assert(named_key(17).1.len() == 6);
    assert(named_key(18).1.len() == 4);
    assert(named_key(19).1.len() == 4);
    assert(named_key(20).1.len() == 4);
    assert(named_key(21).1.len() == 4);
    assert(named_key(22).1.len() == 4);
    assert(named_key(23).1.len() == 4);
    assert(named_key(24).1.len() == 4);
    assert(named_key(25).1.len() == 4);
    assert(named_key(26).1.len() == 4);
    assert(named_key(27).1.len() == 4);
    assert(named_key(28).1.len() == 4);
    assert(named_key(29).1.len() == 4);
    assert(named_key(30).1.len() == 4);
    assert(named_key(31).1.len() == 11);
    assert(named_key(32).1.len() == 6);
    assert(named_key(33).1.len() == 12);
    assert(named_key(34).1.len() == 11);
    assert(named_key(35).1.len() == 10);
    assert(named_key(36).1.len() == 9);
    assert(named_key(37).1.len() == 7);
    assert(named_key(38).1.len() == 6);
    assert(named_key(39).1.len() == 6);
    assert(named_key(40).1.len() == 5);
    assert(named_key(41).1.len() == 5);
    assert(named_key(42).1.len() == 4);
    assert(named_key(43).1.len() == 4);
    assert(named_key(44).1.len() == 1);
    assert(named_key(45).1.len() == 1);
    assert(named_key(46).1.len() == 1);
    assert(named_key(47).1.len() == 1);
    assert(named_key(48).1.len() == 1);
    assert(named_key(49).1.len() == 1);
    assert(named_key(50).1.len() == 1);
    assert(named_key(51).1.len() == 1);
    assert(named_key(52).1.len() == 1);
    assert(named_key(53).1.len() == 1);
    assert(named_key(54).1.len() == 1);
    reveal_with_fuel(find_code, 56);
    reveal_with_fuel(find_name, 56);
    if k == 0 {
        lemma_trim_no_spaces(named_key(0).1);
    } else if k == 1 {
        lemma_trim_no_spaces(named_key(1).1);
    } else if k == 2 {
        lemma_trim_no_spaces(named_key(2).1);
    } else if k == 3 {
        assert(named_key(2).1[0] != named_key(3).1[0]);
        lemma_trim_no_spaces(named_key(3).1);
    } else if k == 4 {
        lemma_trim_no_spaces(named_key(4).1);
    } else if k == 5 {
        lemma_trim_no_spaces(named_key(5).1);
    } else if k == 6 {
        assert(named_key(2).1[0] != named_key(6).1[0]);
        assert(named_key(3).1[0] != named_key(6).1[0]);
        lemma_trim_no_spaces(named_key(6).1);
    } else if k == 7 {
        assert(named_key(5).1[0] != named_key(7).1[0]);
        lemma_trim_no_spaces(named_key(7).1);
    } else if k == 8 {
        assert(named_key(4).1[0] != named_key(8).1[0]);
        lemma_trim_no_spaces(named_key(8).1);
    } else if k == 9 {
        assert(named_key(1).1[0] != named_key(9).1[0]);
        lemma_trim_no_spaces(named_key(9).1);
    } else if k == 10 {
        lemma_trim_no_spaces(named_key(10).1);
    } else if k == 11 {
        assert(named_key(10).1[0] != named_key(11).1[0]);
        lemma_trim_no_spaces(named_key(11).1);
    } else if k == 12 {
        lemma_trim_no_spaces(named_key(12).1);
    } else if k == 13 {
        assert(named_key(2).1[0] != named_key(13).1[0]);
        assert(named_key(3).1[0] != named_key(13).1[0]);
        assert(named_key(6).1[0] != named_key(13).1[0]);
        lemma_trim_no_spaces(named_key(13).1);
    } else if k == 14 {
        assert(named_key(10).1[0] != named_key(14).1[0]);
        assert(named_key(11).1[0] != named_key(14).1[0]);
        lemma_trim_no_spaces(named_key(14).1);
    } else if k == 15 {
        lemma_trim_no_spaces(named_key(15).1);
    } else if k == 16 {
        assert(named_key(5).1[0] != named_key(16).1[0]);
        assert(named_key(7).1[0] != named_key(16).1[0]);
        lemma_trim_no_spaces(named_key(16).1);
    } else if k == 17 {
        assert(named_key(5).1[0] != named_key(17).1[0]);
        assert(named_key(7).1[0] != named_key(17).1[0]);
        assert(named_key(16).1[0] != named_key(17).1[0]);
        lemma_trim_no_spaces(named_key(17).1);
    } else if k == 18 {
        assert(named_key(10).1[0] != named_key(18).1[0]);
        assert(named_key(11).1[1] != named_key(18).1[1]);
        assert(named_key(14).1[0] != named_key(18).1[0]);
        lemma_trim_no_spaces(named_key(18).1);
    } else if k == 19 {
        assert(named_key(10).1[0] != named_key(19).1[0]);
        assert(named_key(11).1[0] != named_key(19).1[0]);
        assert(named_key(14).1[0] != named_key(19).1[0]);
        assert(named_key(18).1[0] != named_key(19).1[0]);
        lemma_trim_no_spaces(named_key(19).1);
    } else if k == 20 {
        assert(named_key(10).1[0] != named_key(20).1[0]);
        assert(named_key(11).1[0] != named_key(20).1[0]);
        assert(named_key(14).1[0] != named_key(20).1[0]);
        assert(named_key(18).1[0] != named_key(20).1[0]);
        assert(named_key(19).1[0] != named_key(20).1[0]);
        lemma_trim_no_spaces(named_key(20).1);
    } else if k == 21 {
        assert(named_key(10).1[0] != named_key(21).1[0]);
        assert(named_key(11).1[0] != named_key(21).1[0]);
        assert(named_key(14).1[0] != named_key(21).1[0]);
        assert(named_key(18).1[0] != named_key(21).1[0]);
        assert(named_key(19).1[0] != named_key(21).1[0]);
        assert(named_key(20).1[0] != named_key(21).1[0]);
        lemma_trim_no_spaces(named_key(21).1);
    } else if k == 22 {
        assert(named_key(10).1[0] != named_key(22).1[0]);
        assert(named_key(11).1[0] != named_key(22).1[0]);
        assert(named_key(14).1[0] != named_key(22).1[0]);
        assert(named_key(18).1[0] != named_key(22).1[0]);
        assert(named_key(19).1[0] != named_key(22).1[0]);
        assert(named_key(20).1[0] != named_key(22).1[0]);
        assert(named_key(21).1[3] != named_key(22).1[3]);
        lemma_trim_no_spaces(named_key(22).1);
    } else if k == 23 {
        assert(named_key(10).1[0] != named_key(23).1[0]);
        assert(named_key(11).1[0] != named_key(23).1[0]);
        assert(named_key(14).1[0] != named_key(23).1[0]);
        assert(named_key(18).1[0] != named_key(23).1[0]);
        assert(named_key(19).1[0] != named_key(23).1[0]);
        assert(named_key(20).1[0] != named_key(23).1[0]);
        assert(named_key(21).1[3] != named_key(23).1[3]);
        assert(named_key(22).1[3] != named_key(23).1[3]);
        lemma_trim_no_spaces(named_key(23).1);
    } else if k == 24 {
        assert(named_key(10).1[0] != named_key(24).1[0]);
        assert(named_key(11).1[0] != named_key(24).1[0]);
        assert(named_key(14).1[0] != named_key(24).1[0]);
        assert(named_key(18).1[0] != named_key(24).1[0]);
        assert(named_key(19).1[0] != named_key(24).1[0]);
        assert(named_key(20).1[0] != named_key(24).1[0]);
        assert(named_key(21).1[3] != named_key(24).1[3]);
        assert(named_key(22).1[3] != named_key(24).1[3]);
        assert(named_key(23).1[3] != named_key(24).1[3]);
        lemma_trim_no_spaces(named_key(24).1);
    } else if k == 25 {
        assert(named_key(10).1[0] != named_key(25).1[0]);
        assert(named_key(11).1[0] != named_key(25).1[0]);
        assert(named_key(14).1[0] != named_key(25).1[0]);
        assert(named_key(18).1[0] != named_key(25).1[0]);
        assert(named_key(19).1[0] != named_key(25).1[0]);
        assert(named_key(20).1[0] != named_key(25).1[0]);
        assert(named_key(21).1[3] != named_key(25).1[3]);
        assert(named_key(22).1[3] != named_key(25).1[3]);
        assert(named_key(23).1[3] != named_key(25).1[3]);
        assert(named_key(24).1[3] != named_key(25).1[3]);
        lemma_trim_no_spaces(named_key(25).1);
    } else if k == 26 {
        assert(named_key(10).1[0] != named_key(26).1[0]);
        assert(named_key(11).1[0] != named_key(26).1[0]);
        assert(named_key(14).1[0] != named_key(26).1[0]);
        assert(named_key(18).1[0] != named_key(26).1[0]);
        assert(named_key(19).1[0] != named_key(26).1[0]);
        assert(named_key(20).1[0] != named_key(26).1[0]);
        assert(named_key(21).1[3] != named_key(26).1[3]);
        assert(named_key(22).1[3] != named_key(26).1[3]);
        assert(named_key(23).1[3] != named_key(26).1[3]);
        assert(named_key(24).1[3] != named_key(26).1[3]);
        assert(named_key(25).1[3] != named_key(26).1[3]);
        lemma_trim_no_spaces(named_key(26).1);
    } else if k == 27 {
        assert(named_key(10).1[0] != named_key(27).1[0]);
        assert(named_key(11).1[0] != named_key(27).1[0]);
        assert(named_key(14).1[0] != named_key(27).1[0]);
        assert(named_key(18).1[0] != named_key(27).1[0]);
        assert(named_key(19).1[0] != named_key(27).1[0]);
        assert(named_key(20).1[0] != named_key(27).1[0]);
        assert(named_key(21).1[3] != named_key(27).1[3]);
        assert(named_key(22).1[3] != named_key(27).1[3]);
        assert(named_key(23).1[3] != named_key(27).1[3]);
        assert(named_key(24).1[3] != named_key(27).1[3]);
        assert(named_key(25).1[3] != named_key(27).1[3]);
        assert(named_key(26).1[3] != named_key(27).1[3]);
        lemma_trim_no_spaces(named_key(27).1);
    } else if k == 28 {
        assert(named_key(10).1[0] != named_key(28).1[0]);
        assert(named_key(11).1[0] != named_key(28).1[0]);
        assert(named_key(14).1[0] != named_key(28).1[0]);
        assert(named_key(18).1[0] != named_key(28).1[0]);
        assert(named_key(19).1[0] != named_key(28).1[0]);
        assert(named_key(20).1[0] != named_key(28).1[0]);
        assert(named_key(21).1[3] != named_key(28).1[3]);
        assert(named_key(22).1[3] != named_key(28).1[3]);
        assert(named_key(23).1[3] != named_key(28).1[3]);
        assert(named_key(24).1[3] != named_key(28).1[3]);
        assert(named_key(25).1[3] != named_key(28).1[3]);
        assert(named_key(26).1[3] != named_key(28).1[3]);
        assert(named_key(27).1[3] != named_key(28).1[3]);
        lemma_trim_no_spaces(named_key(28).1);
    } else if k == 29 {
        assert(named_key(10).1[0] != named_key(29).1[0]);
        assert(named_key(11).1[0] != named_key(29).1[0]);
        assert(named_key(14).1[0] != named_key(29).1[0]);
        assert(named_key(18).1[0] != named_key(29).1[0]);
        assert(named_key(19).1[0] != named_key(29).1[0]);
        assert(named_key(20).1[0] != named_key(29).1[0]);
        assert(named_key(21).1[3] != named_key(29).1[3]);
        assert(named_key(22).1[3] != named_key(29).1[3]);
        assert(named_key(23).1[3] != named_key(29).1[3]);
        assert(named_key(24).1[3] != named_key(29).1[3]);
        assert(named_key(25).1[3] != named_key(29).1[3]);
        assert(named_key(26).1[3] != named_key(29).1[3]);
        assert(named_key(27).1[3] != named_key(29).1[3]);
        assert(named_key(28).1[3] != named_key(29).1[3]);
        lemma_trim_no_spaces(named_key(29).1);
    } else if k == 30 {
        assert(named_key(10).1[0] != named_key(30).1[0]);
        assert(named_key(11).1[0] != named_key(30).1[0]);
        assert(named_key(14).1[0] != named_key(30).1[0]);
        assert(named_key(18).1[0] != named_key(30).1[0]);
        assert(named_key(19).1[0] != named_key(30).1[0]);
        assert(named_key(20).1[0] != named_key(30).1[0]);
        assert(named_key(21).1[3] != named_key(30).1[3]);
        assert(named_key(22).1[3] != named_key(30).1[3]);
        assert(named_key(23).1[3] != named_key(30).1[3]);
        assert(named_key(24).1[3] != named_key(30).1[3]);
        assert(named_key(25).1[3] != named_key(30).1[3]);
        assert(named_key(26).1[3] != named_key(30).1[3]);
        assert(named_key(27).1[3] != named_key(30).1[3]);
        assert(named_key(28).1[3] != named_key(30).1[3]);
        assert(named_key(29).1[3] != named_key(30).1[3]);
        lemma_trim_no_spaces(named_key(30).1);
    } else if k == 31 {
        assert(named_key(15).1[0] != named_key(31).1[0]);
        lemma_trim_no_spaces(named_key(31).1);
    } else if k == 32 {
        assert(named_key(5).1[0] != named_key(32).1[0]);
        assert(named_key(7).1[0] != named_key(32).1[0]);
        assert(named_key(16).1[0] != named_key(32).1[0]);
        assert(named_key(17).1[0] != named_key(32).1[0]);
        lemma_trim_no_spaces(named_key(32).1);
    } else if k == 33 {
        lemma_trim_no_spaces(named_key(33).1);
    } else if k == 34 {
        assert(named_key(15).1[0] != named_key(34).1[0]);
        assert(named_key(31).1[3] != named_key(34).1[3]);
        lemma_trim_no_spaces(named_key(34).1);
    } else if k == 35 {
        lemma_trim_no_spaces(named_key(35).1);
    } else if k == 36 {
        assert(named_key(0).1[0] != named_key(36).1[0]);
        lemma_trim_no_spaces(named_key(36).1);
    } else if k == 37 {
        lemma_trim_no_spaces(named_key(37).1);
    } else if k == 38 {
        assert(named_key(5).1[0] != named_key(38).1[0]);
        assert(named_key(7).1[0] != named_key(38).1[0]);
        assert(named_key(16).1[0] != named_key(38).1[0]);
        assert(named_key(17).1[0] != named_key(38).1[0]);
        assert(named_key(32).1[0] != named_key(38).1[0]);
        lemma_trim_no_spaces(named_key(38).1);
    } else if k == 39 {
        assert(named_key(5).1[0] != named_key(39).1[0]);
        assert(named_key(7).1[0] != named_key(39).1[0]);
        assert(named_key(16).1[0] != named_key(39).1[0]);
        assert(named_key(17).1[0] != named_key(39).1[0]);
        assert(named_key(32).1[0] != named_key(39).1[0]);
        assert(named_key(38).1[0] != named_key(39).1[0]);
        lemma_trim_no_spaces(named_key(39).1);
    } else if k == 40 {
        assert(named_key(2).1[0] != named_key(40).1[0]);
        assert(named_key(3).1[0] != named_key(40).1[0]);
        assert(named_key(6).1[0] != named_key(40).1[0]);
        assert(named_key(13).1[0] != named_key(40).1[0]);
        lemma_trim_no_spaces(named_key(40).1);
    } else if k == 41 {
        assert(named_key(2).1[0] != named_key(41).1[0]);
        assert(named_key(3).1[0] != named_key(41).1[0]);
        assert(named_key(6).1[0] != named_key(41).1[0]);
        assert(named_key(13).1[1] != named_key(41).1[1]);
        assert(named_key(40).1[0] != named_key(41).1[0]);
        lemma_trim_no_spaces(named_key(41).1);
    } else if k == 42 {
        assert(named_key(10).1[0] != named_key(42).1[0]);
        assert(named_key(11).1[1] != named_key(42).1[1]);
        assert(named_key(14).1[0] != named_key(42).1[0]);
        assert(named_key(18).1[1] != named_key(42).1[1]);
        assert(named_key(19).1[0] != named_key(42).1[0]);
        assert(named_key(20).1[0] != named_key(42).1[0]);
        assert(named_key(21).1[0] != named_key(42).1[0]);
        assert(named_key(22).1[0] != named_key(42).1[0]);
        assert(named_key(23).1[0] != named_key(42).1[0]);
        assert(named_key(24).1[0] != named_key(42).1[0]);
        assert(named_key(25).1[0] != named_key(42).1[0]);
        assert(named_key(26).1[0] != named_key(42).1[0]);
        assert(named_key(27).1[0] != named_key(42).1[0]);
        assert(named_key(28).1[0] != named_key(42).1[0]);
        assert(named_key(29).1[0] != named_key(42).1[0]);
        assert(named_key(30).1[0] != named_key(42).1[0]);
        lemma_trim_no_spaces(named_key(42).1);
    } else if k == 43 {
        assert(named_key(10).1[0] != named_key(43).1[0]);
        assert(named_key(11).1[0] != named_key(43).1[0]);
        assert(named_key(14).1[0] != named_key(43).1[0]);
        assert(named_key(18).1[0] != named_key(43).1[0]);
        assert(named_key(19).1[1] != named_key(43).1[1]);
        assert(named_key(20).1[0] != named_key(43).1[0]);
        assert(named_key(21).1[0] != named_key(43).1[0]);
        assert(named_key(22).1[0] != named_key(43).1[0]);
        assert(named_key(23).1[0] != named_key(43).1[0]);
        assert(named_key(24).1[0] != named_key(43).1[0]);
        assert(named_key(25).1[0] != named_key(43).1[0]);
        assert(named_key(26).1[0] != named_key(43).1[0]);
        assert(named_key(27).1[0] != named_key(43).1[0]);
        assert(named_key(28).1[0] != named_key(43).1[0]);
        assert(named_key(29).1[0] != named_key(43).1[0]);
        assert(named_key(30).1[0] != named_key(43).1[0]);
        assert(named_key(42).1[0] != named_key(43).1[0]);
        lemma_trim_no_spaces(named_key(43).1);
    } else if k == 44 {
        lemma_trim_no_spaces(named_key(44).1);
    } else if k == 45 {
        assert(named_key(44).1[0] != named_key(45).1[0]);
        lemma_trim_no_spaces(named_key(45).1);
    } else if k == 46 {
        assert(named_key(44).1[0] != named_key(46).1[0]);
        assert(named_key(45).1[0] != named_key(46).1[0]);
        lemma_trim_no_spaces(named_key(46).1);
    } else if k == 47 {
        assert(named_key(44).1[0] != named_key(47).1[0]);
        assert(named_key(45).1[0] != named_key(47).1[0]);
        assert(named_key(46).1[0] != named_key(47).1[0]);
        lemma_trim_no_spaces(named_key(47).1);
    } else if k == 48 {
        assert(named_key(44).1[0] != named_key(48).1[0]);
        assert(named_key(45).1[0] != named_key(48).1[0]);
        assert(named_key(46).1[0] != named_key(48).1[0]);
        assert(named_key(47).1[0] != named_key(48).1[0]);
        lemma_trim_no_spaces(named_key(48).1);
    } else if k == 49 {
        assert(named_key(44).1[0] != named_key(49).1[0]);
        assert(named_key(45).1[0] != named_key(49).1[0]);
        assert(named_key(46).1[0] != named_key(49).1[0]);
        assert(named_key(47).1[0] != named_key(49).1[0]);
        assert(named_key(48).1[0] != named_key(49).1[0]);
        lemma_trim_no_spaces(named_key(49).1);
    } else if k == 50 {
        assert(named_key(44).1[0] != named_key(50).1[0]);
        assert(named_key(45).1[0] != named_key(50).1[0]);
        assert(named_key(46).1[0] != named_key(50).1[0]);
        assert(named_key(47).1[0] != named_key(50).1[0]);
        assert(named_key(48).1[0] != named_key(50).1[0]);
        assert(named_key(49).1[0] != named_key(50).1[0]);
        lemma_trim_no_spaces(named_key(50).1);
    } else if k == 51 {
        assert(named_key(44).1[0] != named_key(51).1[0]);
        assert(named_key(45).1[0] != named_key(51).1[0]);
        assert(named_key(46).1[0] != named_key(51).1[0]);
        assert(named_key(47).1[0] != named_key(51).1[0]);
        assert(named_key(48).1[0] != named_key(51).1[0]);
        assert(named_key(49).1[0] != named_key(51).1[0]);
        assert(named_key(50).1[0] != named_key(51).1[0]);
        lemma_trim_no_spaces(named_key(51).1);
    } else if k == 52 {
        assert(named_key(44).1[0] != named_key(52).1[0]);
        assert(named_key(45).1[0] != named_key(52).1[0]);
        assert(named_key(46).1[0] != named_key(52).1[0]);
        assert(named_key(47).1[0] != named_key(52).1[0]);
        assert(named_key(48).1[0] != named_key(52).1[0]);
        assert(named_key(49).1[0] != named_key(52).1[0]);
        assert(named_key(50).1[0] != named_key(52).1[0]);
        assert(named_key(51).1[0] != named_key(52).1[0]);
        lemma_trim_no_spaces(named_key(52).1);
    } else if k == 53 {
        assert(named_key(44).1[0] != named_key(53).1[0]);
        assert(named_key(45).1[0] != named_key(53).1[0]);
        assert(named_key(46).1[0] != named_key(53).1[0]);
        assert(named_key(47).1[0] != named_key(53).1[0]);
        assert(named_key(48).1[0] != named_key(53).1[0]);
        assert(named_key(49).1[0] != named_key(53).1[0]);
        assert(named_key(50).1[0] != named_key(53).1[0]);
        assert(named_key(51).1[0] != named_key(53).1[0]);
        assert(named_key(52).1[0] != named_key(53).1[0]);
        lemma_trim_no_spaces(named_key(53).1);
    } else if k == 54 {
        assert(named_key(44).1[0] != named_key(54).1[0]);
        assert(named_key(45).1[0] != named_key(54).1[0]);
        assert(named_key(46).1[0] != named_key(54).1[0]);
        assert(named_key(47).1[0] != named_key(54).1[0]);
        assert(named_key(48).1[0] != named_key(54).1[0]);
        assert(named_key(49).1[0] != named_key(54).1[0]);
        assert(named_key(50).1[0] != named_key(54).1[0]);
        assert(named_key(51).1[0] != named_key(54).1[0]);
        assert(named_key(52).1[0] != named_key(54).1[0]);
        assert(named_key(53).1[0] != named_key(54).1[0]);
        lemma_trim_no_spaces(named_key(54).1);
    }
}

/// Decimal renderings are runs of digits whose value is the number.
proof fn lemma_decimal_digits(n: nat)
    ensures
        decimal(n).len() >= 1,
        all_digits(decimal(n)),
        digits_value(decimal(n)) == n,
    decreases n,
{
    if n < 10 {
        let d = decimal(n);
        assert(d.drop_last() =~= Seq::<char>::empty());
        assert(digits_value(d.drop_last()) == 0);
        assert(digit_char(n as int) as u32 == 48 + n);
        assert(digits_value(d) == n);
    } else {
        lemma_decimal_digits(n / 10);
        let d = decimal(n);
        assert(d.drop_last() =~= decimal(n / 10));
        assert(d.last() == digit_char((n % 10) as int));
        assert(digit_char((n % 10) as int) as u32 == 48 + n % 10);
        assert(digits_value(d) == digits_value(decimal(n / 10)) * 10 + (d.last() as u32 - 48) as nat);
        assert((n / 10) * 10 + n % 10 == n);
        assert(digits_value(d) == n);
        assert forall|i: int| 0 <= i < d.len() implies is_digit_ascii(#[trigger] d[i]) by {
            if i < d.len() - 1 {
                assert(d[i] == decimal(n / 10)[i]);
            }
        }
    }
}

/// A code found by `find_code` comes from a table entry.
proof fn lemma_find_code_entry(vk: u16, i: int)
    requires
        find_code(vk, i) is Some,
    ensures
        exists|k: int|
            i <= k < NAMED_KEY_COUNT && named_key(k).0 == vk && find_code(vk, i) == Some(
                named_key(k).1,
            ),
    decreases NAMED_KEY_COUNT - i,
{
    if named_key(i).0 != vk {
        lemma_find_code_entry(vk, i + 1);
    }
}

/// `vk` has a canonical name (digit, letter, F1..F24 or a table key), as
/// opposed to the `VK_<hex>` fallback.
pub open spec fn has_canonical_name(vk: u16) -> bool {
    ||| VK_DIGIT0 <= vk <= VK_DIGIT0 + 9
    ||| VK_A <= vk <= VK_A + 25
    ||| VK_F1 <= vk <= VK_F1 + 23
    ||| find_code(vk, 0) is Some
}

/// Every canonical key name maps back to the key it names: looking up the
/// name `name_for_vk` gives for a key yields that key again. (Keys without a
/// canonical name get the `VK_<hex>` fallback instead.)
pub proof fn law_name_round_trip(vk: u16)
    ensures
        has_canonical_name(vk) ==> spec_vk_for_name(spec_name_for_vk(vk)) == Some(vk),
        !has_canonical_name(vk) ==> spec_name_for_vk(vk).take(3) == seq!['V', 'K', '_'],
{
    let name = spec_name_for_vk(vk);
    if VK_DIGIT0 <= vk <= VK_DIGIT0 + 9 {
        lemma_trim_no_spaces(name);
    } else if VK_A <= vk <= VK_A + 25 {
        lemma_trim_no_spaces(name);
    } else if VK_F1 <= vk <= VK_F1 + 23 {
        let n = (vk - VK_F1 + 1) as nat;
        lemma_decimal_digits(n);
        let d = decimal(n);
        assert(name.drop_first() =~= d);
        assert(name.last() == d.last());
        assert(is_digit_ascii(d[d.len() - 1]));
        lemma_trim_no_spaces(name);
        assert(d[0] != '+') by {
            assert(is_digit_ascii(d[0]));
        }
        assert(parse_u16(d) == Some(n as u16));
    } else if find_code(vk, 0) is Some {
        lemma_find_code_entry(vk, 0);
        let k = choose|k: int|
            0 <= k < NAMED_KEY_COUNT && named_key(k).0 == vk && find_code(vk, 0) == Some(
                named_key(k).1,
            );
        lemma_named_entry_round_trip(k);
    } else {
        assert(name.take(3) =~= seq!['V', 'K', '_']);
    }
}

/// No name of the key table starts with 'V'.
proof fn lemma_table_names_not_v(k: int)
    requires
        0 <= k < NAMED_KEY_COUNT,
    ensures
        named_key(k).1.len() > 0,
        named_key(k).1[0] != 'V',
{
    reveal_strlit("Backspace");
    reveal_strlit("Tab");
    reveal_strlit("Enter");
    reveal_strlit("Pause");
    reveal_strlit("CapsLock");
    reveal_strlit("Escape");
    reveal_strlit("Space");
    reveal_strlit("PageUp");
    reveal_strlit("PageDown");
    reveal_strlit("End");
    reveal_strlit("Home");
    reveal_strlit("Left");
    reveal_strlit("Up");
    reveal_strlit("Right");
    reveal_strlit("Down");
    reveal_strlit("PrintScreen");
    reveal_strlit("Insert");
    reveal_strlit("Delete");
    reveal_strlit("LWin");
    reveal_strlit("RWin");
    reveal_strlit("Apps");
    reveal_strlit("Num0");
    reveal_strlit("Num1");
    reveal_strlit("Num2");
    reveal_strlit("Num3");
    reveal_strlit("Num4");
    reveal_strlit("Num5");
    reveal_strlit("Num6");
    reveal_strlit("Num7");
    reveal_strlit("Num8");
    reveal_strlit("Num9");
    reveal_strlit("NumMultiply");
    reveal_strlit("NumAdd");
    reveal_strlit("NumSeparator");
    reveal_strlit("NumSubtract");
    reveal_strlit("NumDecimal");
    reveal_strlit("NumDivide");
    reveal_strlit("NumLock");
    reveal_strlit("LShift");
    reveal_strlit("RShift");
    reveal_strlit("LCtrl");
    reveal_strlit("RCtrl");
    reveal_strlit("LAlt");
    reveal_strlit("RAlt");
    reveal_strlit(";");
    reveal_strlit("=");
    reveal_strlit(",");
    reveal_strlit("-");
    reveal_strlit(".");
    reveal_strlit("/");
    reveal_strlit("`");
    reveal_strlit("[");
    reveal_strlit("\\");
    reveal_strlit("]");
    reveal_strlit("'");
}

/// A name found by `find_name` comes from a table entry.
proof fn lemma_find_name_entry(name: Seq<char>, i: int)
    requires
        find_name(name, i) is Some,
    ensures
        exists|k: int|
            i <= k < NAMED_KEY_COUNT && named_key(k).1 == name && named_key(k).0 == find_name(name, i)->0,
    decreases NAMED_KEY_COUNT - i,
{
    if named_key(i).1 != name {
        lemma_find_name_entry(name, i + 1);
    }
}

/// A code of the table is found by `find_code`.
proof fn lemma_find_code_at(vk: u16, i: int, k: int)
    requires
        0 <= i <= k < NAMED_KEY_COUNT,
        named_key(k).0 == vk,
    ensures
        find_code(vk, i) is Some,
    decreases k - i,
{
    if named_key(i).0 != vk {
        lemma_find_code_at(vk, i + 1, k);
    }
}

proof fn lemma_hex_char_value(d: int)
    requires
        0 <= d < 16,
    ensures
        hex_digit_value(crate::text::hex_char(d)) == d,
        is_hex_digit(crate::text::hex_char(d)),
{
    if d < 10 {
        assert(crate::text::hex_char(d) as u32 == 48 + d);
    } else {
        assert(crate::text::hex_char(d) as u32 == 55 + d);
    }
}

proof fn lemma_hex_upper_value(n: nat)
    ensures
        hex_value(hex_upper(n)) == n,
        hex_upper(n).len() > 0,
        forall|i: int| 0 <= i < hex_upper(n).len() ==> is_hex_digit(#[trigger] hex_upper(n)[i]),
    decreases n,
{
    lemma_hex_char_value((n % 16) as int);
    if n < 16 {
        assert(hex_upper(n).drop_last() =~= Seq::<char>::empty());
        assert(hex_value(Seq::<char>::empty()) == 0);
        assert(hex_upper(n).last() == crate::text::hex_char(n as int));
        assert(n % 16 == n);
    } else {
        lemma_hex_upper_value(n / 16);
        let s = hex_upper(n / 16);
        let t = hex_upper(n);
        assert(t.drop_last() =~= s);
        assert(n == (n / 16) * 16 + n % 16) by (nonlinear_arith);
        assert(t.last() == crate::text::hex_char((n % 16) as int));
        assert(hex_value(t) == hex_value(s) * 16 + hex_digit_value(t.last()));
        assert forall|i: int| 0 <= i < t.len() implies is_hex_digit(#[trigger] t[i]) by {
            if i < s.len() {
                assert(t[i] == s[i]);
            }
        }
    }
}

proof fn lemma_zeros_value(k: nat, s: Seq<char>)
    ensures
        hex_value(Seq::new(k, |i: int| '0') + s) == hex_value(s),
    decreases s.len(), k,
{
    let z = Seq::new(k, |i: int| '0');
    if s.len() == 0 {
        if k > 0 {
            assert((z + s).drop_last() =~= Seq::new((k - 1) as nat, |i: int| '0') + s);
            lemma_zeros_value((k - 1) as nat, s);
        }
    } else {
        assert((z + s).drop_last() =~= z + s.drop_last());
        lemma_zeros_value(k, s.drop_last());
    }
}

proof fn lemma_hex_padded_value(n: nat, w: nat)
    ensures
        hex_value(hex_padded(n, w)) == n,
        hex_padded(n, w).len() > 0,
        forall|i: int| 0 <= i < hex_padded(n, w).len() ==> is_hex_digit(#[trigger] hex_padded(n, w)[i]),
{
    lemma_hex_upper_value(n);
    let h = hex_upper(n);
    if h.len() < w {
        lemma_zeros_value((w - h.len()) as nat, h);
        let p = hex_padded(n, w);
        let z = Seq::new((w - h.len()) as nat, |i: int| '0');
        assert forall|i: int| 0 <= i < p.len() implies is_hex_digit(#[trigger] p[i]) by {
            if i >= z.len() {
                assert(p[i] == h[i - z.len()]);
            }
        }
    }
}

/// A `VK_<hex>` fallback name is not a name `vk_for_name` knows.
pub proof fn law_fallback_names_are_unknown(vk: u16)
    ensures
        !has_canonical_name(vk) ==> spec_vk_for_name(spec_name_for_vk(vk)) is None,
{
    if !has_canonical_name(vk) {
        let h = hex_padded(vk as nat, 2);
        lemma_hex_padded_value(vk as nat, 2);
        let name = spec_name_for_vk(vk);
        assert(name == seq!['V', 'K', '_'] + h);
        assert(name.last() == h.last());
        assert(is_hex_digit(h[h.len() - 1]));
        lemma_trim_no_spaces(name);
        if find_name(name, 0) is Some {
            lemma_find_name_entry(name, 0);
            let k = choose|k: int|
                0 <= k < NAMED_KEY_COUNT && named_key(k).1 == name && named_key(k).0 == find_name(name, 0)->0;
            lemma_table_names_not_v(k);
        }
    }
}

/// `vk_for_name` ignores surrounding whitespace, and every code it returns
/// has a canonical name that maps back to it.
pub proof fn law_vk_for_name_returns_canonical_codes(name: Seq<char>)
    ensures
        spec_vk_for_name(name) == spec_vk_for_name(trim(name)),
        spec_vk_for_name(name) matches Some(v) ==> has_canonical_name(v) && spec_vk_for_name(
            spec_name_for_vk(v),
        ) == Some(v),
{
    crate::text::lemma_trim_trimmed(name);
    let t = trim(name);
    if spec_vk_for_name(name) is Some {
        let v = spec_vk_for_name(name)->0;
        if t.len() == 1 && is_upper_ascii(t[0]) {
        } else if t.len() == 1 && is_digit_ascii(t[0]) {
        } else if t.len() >= 2 && t[0] == 'F' && parse_u16(t.drop_first()) is Some && 1
            <= parse_u16(t.drop_first())->0 <= 24 {
        } else if is_num_digit_name(t) {
            let d = (t[3] as u32 - 48) as int;
            lemma_find_code_at(v, 0, 21 + d);
        } else {
            lemma_find_name_entry(t, 0);
            let k = choose|k: int|
                0 <= k < NAMED_KEY_COUNT && named_key(k).1 == t && named_key(k).0 == find_name(t, 0)->0;
            lemma_find_code_at(v, 0, k);
        }
        law_name_round_trip(v);
    }
}

/// Distinct key codes never share a name, and no name is empty.
pub proof fn law_names_are_distinct(a: u16, b: u16)
    ensures
        spec_name_for_vk(a).len() > 0,
        spec_name_for_vk(a) == spec_name_for_vk(b) ==> a == b,
{
    law_name_round_trip(a);
    law_name_round_trip(b);
    law_fallback_names_are_unknown(a);
    law_fallback_names_are_unknown(b);
    if has_canonical_name(a) {
        if find_code(a, 0) is Some && !(VK_DIGIT0 <= a <= VK_DIGIT0 + 9) && !(VK_A <= a <= VK_A + 25)
            && !(VK_F1 <= a <= VK_F1 + 23) {
            lemma_find_code_entry(a, 0);
            let k = choose|k: int|
                0 <= k < NAMED_KEY_COUNT && named_key(k).0 == a && find_code(a, 0) == Some(named_key(k).1);
            lemma_table_names_not_v(k);
        }
    } else {
        lemma_hex_padded_value(a as nat, 2);
    }
    if spec_name_for_vk(a) == spec_name_for_vk(b) && !has_canonical_name(a) && !has_canonical_name(b) {
        lemma_hex_padded_value(b as nat, 2);
        assert(spec_name_for_vk(a).skip(3) =~= hex_padded(a as nat, 2));
        assert(spec_name_for_vk(b).skip(3) =~= hex_padded(b as nat, 2));
    }
}

/// The canonical names of the keys the built-in presets use and of the
/// OS-reserved keys, with their codes.
pub proof fn lemma_preset_key_names()
    ensures
        spec_name_for_vk(0x5B) == "LWin"@,
        spec_name_for_vk(0x5C) == "RWin"@,
        spec_name_for_vk(0x5D) == "Apps"@,
        spec_name_for_vk(0xA4) == "LAlt"@,
        spec_name_for_vk(0xA5) == "RAlt"@,
        spec_name_for_vk(0x1B) == "Escape"@,
        has_canonical_name(0xBA),
        has_canonical_name(0x41),
        has_canonical_name(0x43),
        has_canonical_name(0x44),
        has_canonical_name(0x28),
        has_canonical_name(0x45),
        has_canonical_name(0x0D),
        has_canonical_name(0x46),
        has_canonical_name(0x49),
        has_canonical_name(0x4A),
        has_canonical_name(0x4B),
        has_canonical_name(0x4C),
        has_canonical_name(0xA2),
        has_canonical_name(0xA0),
        has_canonical_name(0x25),
        has_canonical_name(0x4F),
        has_canonical_name(0x51),
        has_canonical_name(0x52),
        has_canonical_name(0x27),
        has_canonical_name(0x53),
        has_canonical_name(0x20),
        has_canonical_name(0x09),
        has_canonical_name(0x55),
        has_canonical_name(0x26),
        has_canonical_name(0x57),
        has_canonical_name(0x5A),
        spec_name_for_vk(0xBA) == ";"@,
        spec_name_for_vk(0x41) == "A"@,
        spec_name_for_vk(0x43) == "C"@,
        spec_name_for_vk(0x44) == "D"@,
        spec_name_for_vk(0x28) == "Down"@,
        spec_name_for_vk(0x45) == "E"@,
        spec_name_for_vk(0x0D) == "Enter"@,
        spec_name_for_vk(0x46) == "F"@,
        spec_name_for_vk(0x49) == "I"@,
        spec_name_for_vk(0x4A) == "J"@,
        spec_name_for_vk(0x4B) == "K"@,
        spec_name_for_vk(0x4C) == "L"@,
        spec_name_for_vk(0xA2) == "LCtrl"@,
        spec_name_for_vk(0xA0) == "LShift"@,
        spec_name_for_vk(0x25) == "Left"@,
        spec_name_for_vk(0x4F) == "O"@,
        spec_name_for_vk(0x51) == "Q"@,
        spec_name_for_vk(0x52) == "R"@,
        spec_name_for_vk(0x27) == "Right"@,
        spec_name_for_vk(0x53) == "S"@,
        spec_name_for_vk(0x20) == "Space"@,
        spec_name_for_vk(0x09) == "Tab"@,
        spec_name_for_vk(0x55) == "U"@,
        spec_name_for_vk(0x26) == "Up"@,
        spec_name_for_vk(0x57) == "W"@,
        spec_name_for_vk(0x5A) == "Z"@,
{
    lemma_named_entry_round_trip(18);
    lemma_named_entry_round_trip(19);
    lemma_named_entry_round_trip(20);
    lemma_named_entry_round_trip(42);
    lemma_named_entry_round_trip(43);
    lemma_named_entry_round_trip(5);
    lemma_named_entry_round_trip(44);
    reveal_strlit("A");
    assert("A"@ =~= seq![(65 + (0x41u16 - VK_A)) as char]);
    reveal_strlit("C");
    assert("C"@ =~= seq![(65 + (0x43u16 - VK_A)) as char]);
    reveal_strlit("D");
    assert("D"@ =~= seq![(65 + (0x44u16 - VK_A)) as char]);
    lemma_named_entry_round_trip(14);
    reveal_strlit("E");
    assert("E"@ =~= seq![(65 + (0x45u16 - VK_A)) as char]);
    lemma_named_entry_round_trip(2);
    reveal_strlit("F");
    assert("F"@ =~= seq![(65 + (0x46u16 - VK_A)) as char]);
    reveal_strlit("I");
    assert("I"@ =~= seq![(65 + (0x49u16 - VK_A)) as char]);
    reveal_strlit("J");
    assert("J"@ =~= seq![(65 + (0x4Au16 - VK_A)) as char]);
    reveal_strlit("K");
    assert("K"@ =~= seq![(65 + (0x4Bu16 - VK_A)) as char]);
    reveal_strlit("L");
    assert("L"@ =~= seq![(65 + (0x4Cu16 - VK_A)) as char]);
    lemma_named_entry_round_trip(40);
    lemma_named_entry_round_trip(38);
    lemma_named_entry_round_trip(11);
    reveal_strlit("O");
    assert("O"@ =~= seq![(65 + (0x4Fu16 - VK_A)) as char]);
    reveal_strlit("Q");
    assert("Q"@ =~= seq![(65 + (0x51u16 - VK_A)) as char]);
    reveal_strlit("R");
    assert("R"@ =~= seq![(65 + (0x52u16 - VK_A)) as char]);
    lemma_named_entry_round_trip(13);
    reveal_strlit("S");
    assert("S"@ =~= seq![(65 + (0x53u16 - VK_A)) as char]);
    lemma_named_entry_round_trip(6);
    lemma_named_entry_round_trip(1);
    reveal_strlit("U");
    assert("U"@ =~= seq![(65 + (0x55u16 - VK_A)) as char]);
    lemma_named_entry_round_trip(12);
    reveal_strlit("W");
    assert("W"@ =~= seq![(65 + (0x57u16 - VK_A)) as char]);
    reveal_strlit("Z");
    assert("Z"@ =~= seq![(65 + (0x5Au16 - VK_A)) as char]);
}


/// The named keys carry the names of the Windows keys their virtual key
/// codes stand for (Backspace 0x08 ... Insert 0x2D, Delete 0x2E ... the OEM
/// punctuation keys), and each of those names maps back to its code.
pub proof fn law_named_keys_are_windows_keys()
    ensures
        spec_name_for_vk(0x08u16) == "Backspace"@,
        spec_name_for_vk(0x09u16) == "Tab"@,
        spec_name_for_vk(0x0Du16) == "Enter"@,
        spec_name_for_vk(0x13u16) == "Pause"@,
        spec_name_for_vk(0x14u16) == "CapsLock"@,
        spec_name_for_vk(0x1Bu16) == "Escape"@,
        spec_name_for_vk(0x20u16) == "Space"@,
        spec_name_for_vk(0x21u16) == "PageUp"@,
        spec_name_for_vk(0x22u16) == "PageDown"@,
        spec_name_for_vk(0x23u16) == "End"@,
        spec_name_for_vk(0x24u16) == "Home"@,
        spec_name_for_vk(0x25u16) == "Left"@,
        spec_name_for_vk(0x26u16) == "Up"@,
        spec_name_for_vk(0x27u16) == "Right"@,
        spec_name_for_vk(0x28u16) == "Down"@,
        spec_name_for_vk(0x2Cu16) == "PrintScreen"@,
        spec_name_for_vk(0x2Du16) == "Insert"@,
        spec_name_for_vk(0x2Eu16) == "Delete"@,
        spec_name_for_vk(0x5Bu16) == "LWin"@,
        spec_name_for_vk(0x5Cu16) == "RWin"@,
        spec_name_for_vk(0x5Du16) == "Apps"@,
        spec_name_for_vk(0x60u16) == "Num0"@,
        spec_name_for_vk(0x61u16) == "Num1"@,
        spec_name_for_vk(0x62u16) == "Num2"@,
        spec_name_for_vk(0x63u16) == "Num3"@,
        spec_name_for_vk(0x64u16) == "Num4"@,
        spec_name_for_vk(0x65u16) == "Num5"@,
        spec_name_for_vk(0x66u16) == "Num6"@,
        spec_name_for_vk(0x67u16) == "Num7"@,
        spec_name_for_vk(0x68u16) == "Num8"@,
        spec_name_for_vk(0x69u16) == "Num9"@,
        spec_name_for_vk(0x6Au16) == "NumMultiply"@,
        spec_name_for_vk(0x6Bu16) == "NumAdd"@,
        spec_name_for_vk(0x6Cu16) == "NumSeparator"@,
        spec_name_for_vk(0x6Du16) == "NumSubtract"@,
        spec_name_for_vk(0x6Eu16) == "NumDecimal"@,
        spec_name_for_vk(0x6Fu16) == "NumDivide"@,
        spec_name_for_vk(0x90u16) == "NumLock"@,
        spec_name_for_vk(0xA0u16) == "LShift"@,
        spec_name_for_vk(0xA1u16) == "RShift"@,
        spec_name_for_vk(0xA2u16) == "LCtrl"@,
        spec_name_for_vk(0xA3u16) == "RCtrl"@,
        spec_name_for_vk(0xA4u16) == "LAlt"@,
        spec_name_for_vk(0xA5u16) == "RAlt"@,
        spec_name_for_vk(0xBAu16) == ";"@,
        spec_name_for_vk(0xBBu16) == "="@,
        spec_name_for_vk(0xBCu16) == ","@,
        spec_name_for_vk(0xBDu16) == "-"@,
        spec_name_for_vk(0xBEu16) == "."@,
        spec_name_for_vk(0xBFu16) == "/"@,
        spec_name_for_vk(0xC0u16) == "`"@,
        spec_name_for_vk(0xDBu16) == "["@,
        spec_name_for_vk(0xDCu16) == "\\"@,
        spec_name_for_vk(0xDDu16) == "]"@,
        spec_name_for_vk(0xDEu16) == "'"@,
        spec_vk_for_name("Backspace"@) == Some(0x08u16),
        spec_vk_for_name("Tab"@) == Some(0x09u16),
        spec_vk_for_name("Enter"@) == Some(0x0Du16),
        spec_vk_for_name("Pause"@) == Some(0x13u16),
        spec_vk_for_name("CapsLock"@) == Some(0x14u16),
        spec_vk_for_name("Escape"@) == Some(0x1Bu16),
        spec_vk_for_name("Space"@) == Some(0x20u16),
        spec_vk_for_name("PageUp"@) == Some(0x21u16),
        spec_vk_for_name("PageDown"@) == Some(0x22u16),
        spec_vk_for_name("End"@) == Some(0x23u16),
        spec_vk_for_name("Home"@) == Some(0x24u16),
        spec_vk_for_name("Left"@) == Some(0x25u16),
        spec_vk_for_name("Up"@) == Some(0x26u16),
        spec_vk_for_name("Right"@) == Some(0x27u16),
        spec_vk_for_name("Down"@) == Some(0x28u16),
        spec_vk_for_name("PrintScreen"@) == Some(0x2Cu16),
        spec_vk_for_name("Insert"@) == Some(0x2Du16),
        spec_vk_for_name("Delete"@) == Some(0x2Eu16),
        spec_vk_for_name("LWin"@) == Some(0x5Bu16),
        spec_vk_for_name("RWin"@) == Some(0x5Cu16),
        spec_vk_for_name("Apps"@) == Some(0x5Du16),
        spec_vk_for_name("Num0"@) == Some(0x60u16),
        spec_vk_for_name("Num1"@) == Some(0x61u16),
        spec_vk_for_name("Num2"@) == Some(0x62u16),
        spec_vk_for_name("Num3"@) == Some(0x63u16),
        spec_vk_for_name("Num4"@) == Some(0x64u16),
        spec_vk_for_name("Num5"@) == Some(0x65u16),
        spec_vk_for_name("Num6"@) == Some(0x66u16),
        spec_vk_for_name("Num7"@) == Some(0x67u16),
        spec_vk_for_name("Num8"@) == Some(0x68u16),
        spec_vk_for_name("Num9"@) == Some(0x69u16),
        spec_vk_for_name("NumMultiply"@) == Some(0x6Au16),
        spec_vk_for_name("NumAdd"@) == Some(0x6Bu16),
        spec_vk_for_name("NumSeparator"@) == Some(0x6Cu16),
        spec_vk_for_name("NumSubtract"@) == Some(0x6Du16),
        spec_vk_for_name("NumDecimal"@) == Some(0x6Eu16),
        spec_vk_for_name("NumDivide"@) == Some(0x6Fu16),
        spec_vk_for_name("NumLock"@) == Some(0x90u16),
        spec_vk_for_name("LShift"@) == Some(0xA0u16),
        spec_vk_for_name("RShift"@) == Some(0xA1u16),
        spec_vk_for_name("LCtrl"@) == Some(0xA2u16),
        spec_vk_for_name("RCtrl"@) == Some(0xA3u16),
        spec_vk_for_name("LAlt"@) == Some(0xA4u16),
        spec_vk_for_name("RAlt"@) == Some(0xA5u16),
        spec_vk_for_name(";"@) == Some(0xBAu16),
        spec_vk_for_name("="@) == Some(0xBBu16),
        spec_vk_for_name(","@) == Some(0xBCu16),
        spec_vk_for_name("-"@) == Some(0xBDu16),
        spec_vk_for_name("."@) == Some(0xBEu16),
        spec_vk_for_name("/"@) == Some(0xBFu16),
        spec_vk_for_name("`"@) == Some(0xC0u16),
        spec_vk_for_name("["@) == Some(0xDBu16),
        spec_vk_for_name("\\"@) == Some(0xDCu16),
        spec_vk_for_name("]"@) == Some(0xDDu16),
        spec_vk_for_name("'"@) == Some(0xDEu16),
{
    lemma_named_entry_round_trip(0);
    lemma_named_entry_round_trip(1);
    lemma_named_entry_round_trip(2);
    lemma_named_entry_round_trip(3);
    lemma_named_entry_round_trip(4);
    lemma_named_entry_round_trip(5);
    lemma_named_entry_round_trip(6);
    lemma_named_entry_round_trip(7);
    lemma_named_entry_round_trip(8);
    lemma_named_entry_round_trip(9);
    lemma_named_entry_round_trip(10);
    lemma_named_entry_round_trip(11);
    lemma_named_entry_round_trip(12);
    lemma_named_entry_round_trip(13);
    lemma_named_entry_round_trip(14);
    lemma_named_entry_round_trip(15);
    lemma_named_entry_round_trip(16);
    lemma_named_entry_round_trip(17);
    lemma_named_entry_round_trip(18);
    lemma_named_entry_round_trip(19);
    lemma_named_entry_round_trip(20);
    lemma_named_entry_round_trip(21);
    lemma_named_entry_round_trip(22);
    lemma_named_entry_round_trip(23);
    lemma_named_entry_round_trip(24);
    lemma_named_entry_round_trip(25);
    lemma_named_entry_round_trip(26);
    lemma_named_entry_round_trip(27);
    lemma_named_entry_round_trip(28);
    lemma_named_entry_round_trip(29);
    lemma_named_entry_round_trip(30);
    lemma_named_entry_round_trip(31);
    lemma_named_entry_round_trip(32);
    lemma_named_entry_round_trip(33);
    lemma_named_entry_round_trip(34);
    lemma_named_entry_round_trip(35);
    lemma_named_entry_round_trip(36);
    lemma_named_entry_round_trip(37);
    lemma_named_entry_round_trip(38);
    lemma_named_entry_round_trip(39);
    lemma_named_entry_round_trip(40);
    lemma_named_entry_round_trip(41);
    lemma_named_entry_round_trip(42);
    lemma_named_entry_round_trip(43);
    lemma_named_entry_round_trip(44);
    lemma_named_entry_round_trip(45);
    lemma_named_entry_round_trip(46);
    lemma_named_entry_round_trip(47);
    lemma_named_entry_round_trip(48);
    lemma_named_entry_round_trip(49);
    lemma_named_entry_round_trip(50);
    lemma_named_entry_round_trip(51);
    lemma_named_entry_round_trip(52);
    lemma_named_entry_round_trip(53);
    lemma_named_entry_round_trip(54);
}

/// Letter keys are named by their letter and digit keys by their digit:
/// the virtual key code of `A`..`Z` and `0`..`9` is the character's ASCII
/// code, and the name maps back to it.
pub proof fn law_letters_and_digits_name_themselves(vk: u16)
    ensures
        0x41 <= vk <= 0x5A ==> spec_name_for_vk(vk) == seq![vk as char],
        0x30 <= vk <= 0x39 ==> spec_name_for_vk(vk) == seq![vk as char],
        (0x41 <= vk <= 0x5A || 0x30 <= vk <= 0x39) ==> spec_vk_for_name(seq![vk as char]) == Some(vk),
{
    law_name_round_trip(vk);
}

} // verus!
