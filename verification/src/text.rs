//! Small verified string helpers: character access, trimming, decimal and
//! hexadecimal rendering.

use vstd::prelude::*;
use vstd::string::*;

verus! {

/// Appends one character (std `String::push`).
#[verifier::external_body]
pub fn push_char(s: &mut String, c: char)
    ensures
        final(s)@ == old(s)@.push(c),
{
    s.push(c);
}

/// Equality of two string slices: equal exactly when they hold the same
/// characters.
pub fn str_eq(a: &str, b: &str) -> (r: bool)
    ensures
        r == (a@ == b@),
{
    let x = a.to_string();
    let y = b.to_string();
    x == y
}

/// The characters of `s`, in order.
pub fn chars_of(s: &str) -> (v: Vec<char>)
    ensures
        v@ == s@,
{
    let n = s.unicode_len();
    let mut v: Vec<char> = Vec::new();
    let mut i: usize = 0;
    while i < n
        invariant
            n == s@.len(),
            i <= n,
            v@ == s@.take(i as int),
        decreases n - i,
    {
        v.push(s.get_char(i));
        i = i + 1;
        proof {
            assert(v@ =~= s@.take(i as int));
        }
    }
    proof {
        assert(v@ =~= s@);
    }
    v
}

/// A `String` holding the characters `cs[from..to]`.
pub fn string_from_chars(cs: &[char], from: usize, to: usize) -> (r: String)
    requires
        from <= to <= cs@.len(),
    ensures
        r@ == cs@.subrange(from as int, to as int),
{
    let mut r = String::new();
    let mut i: usize = from;
    while i < to
        invariant
            from <= i <= to,
            to <= cs@.len(),
            r@ == cs@.subrange(from as int, i as int),
        decreases to - i,
    {
        push_char(&mut r, cs[i]);
        i = i + 1;
        proof {
            assert(r@ =~= cs@.subrange(from as int, i as int));
        }
    }
    r
}

/// Appends all characters of `t` to `s`.
pub fn push_str(s: &mut String, t: &str)
    ensures
        final(s)@ == old(s)@ + t@,
{
    let cs = chars_of(t);
    let ghost start = s@;
    let mut i: usize = 0;
    while i < cs.len()
        invariant
            i <= cs@.len(),
            cs@ == t@,
            s@ == start + cs@.take(i as int),
        decreases cs@.len() - i,
    {
        push_char(s, cs[i]);
        i = i + 1;
        proof {
            assert(s@ =~= start + cs@.take(i as int));
        }
    }
    proof {
        assert(cs@.take(cs@.len() as int) =~= cs@);
    }
}

/// `char::is_whitespace`: the Unicode White_Space property.
pub open spec fn is_space(c: char) -> bool {
    let u = c as u32;
    ||| 0x09 <= u <= 0x0D
    ||| u == 0x20
    ||| u == 0x85
    ||| u == 0xA0
    ||| u == 0x1680
    ||| 0x2000 <= u <= 0x200A
    ||| u == 0x2028
    ||| u == 0x2029
    ||| u == 0x202F
    ||| u == 0x205F
    ||| u == 0x3000
}

pub fn char_is_space(c: char) -> (r: bool)
    ensures
        r == is_space(c),
{
    let u = c as u32;
    (0x09 <= u && u <= 0x0D) || u == 0x20 || u == 0x85 || u == 0xA0 || u == 0x1680 || (0x2000
        <= u && u <= 0x200A) || u == 0x2028 || u == 0x2029 || u == 0x202F || u == 0x205F || u
        == 0x3000
}

/// Number of leading whitespace characters of `s`.
pub open spec fn leading_spaces(s: Seq<char>) -> nat
    decreases s.len(),
{
    if s.len() > 0 && is_space(s[0]) {
        1 + leading_spaces(s.drop_first())
    } else {
        0
    }
}

/// Number of trailing whitespace characters of `s`.
pub open spec fn trailing_spaces(s: Seq<char>) -> nat
    decreases s.len(),
{
    if s.len() > 0 && is_space(s.last()) {
        1 + trailing_spaces(s.drop_last())
    } else {
        0
    }
}

/// `str::trim`: `s` without leading and trailing whitespace.
pub open spec fn trim(s: Seq<char>) -> Seq<char> {
    let t = s.skip(leading_spaces(s) as int);
    t.take(t.len() - trailing_spaces(t))
}

pub proof fn lemma_leading_spaces(s: Seq<char>)
    ensures
        leading_spaces(s) <= s.len(),
        forall|i: int| 0 <= i < leading_spaces(s) ==> is_space(#[trigger] s[i]),
        leading_spaces(s) < s.len() ==> !is_space(s[leading_spaces(s) as int]),
    decreases s.len(),
{
    if s.len() > 0 && is_space(s[0]) {
        lemma_leading_spaces(s.drop_first());
        assert forall|i: int| 0 <= i < leading_spaces(s) implies is_space(#[trigger] s[i]) by {
            if i > 0 {
                assert(s[i] == s.drop_first()[i - 1]);
            }
        }
    }
}

pub proof fn lemma_trailing_spaces(s: Seq<char>)
    ensures
        trailing_spaces(s) <= s.len(),
        forall|i: int| s.len() - trailing_spaces(s) <= i < s.len() ==> is_space(#[trigger] s[i]),
        trailing_spaces(s) < s.len() ==> !is_space(s[s.len() - trailing_spaces(s) - 1]),
    decreases s.len(),
{
    if s.len() > 0 && is_space(s.last()) {
        lemma_trailing_spaces(s.drop_last());
        assert forall|i: int| s.len() - trailing_spaces(s) <= i < s.len() implies is_space(
            #[trigger] s[i],
        ) by {
            if i < s.len() - 1 {
                assert(s[i] == s.drop_last()[i]);
            }
        }
    }
}

/// A sequence whose first `k` characters are whitespace and whose next one
/// is not has exactly `k` leading spaces.
proof fn lemma_leading_spaces_exact(s: Seq<char>, k: int)
    requires
        0 <= k <= s.len(),
        forall|i: int| 0 <= i < k ==> is_space(#[trigger] s[i]),
        k < s.len() ==> !is_space(s[k]),
    ensures
        leading_spaces(s) == k,
    decreases k,
{
    if k > 0 {
        let d = s.drop_first();
        assert forall|i: int| 0 <= i < k - 1 implies is_space(#[trigger] d[i]) by {
            assert(d[i] == s[i + 1]);
        }
        if k - 1 < d.len() {
            assert(d[k - 1] == s[k]);
        }
        lemma_leading_spaces_exact(d, k - 1);
    }
}

proof fn lemma_trailing_spaces_exact(s: Seq<char>, k: int)
    requires
        0 <= k <= s.len(),
        forall|i: int| s.len() - k <= i < s.len() ==> is_space(#[trigger] s[i]),
        k < s.len() ==> !is_space(s[s.len() - k - 1]),
    ensures
        trailing_spaces(s) == k,
    decreases k,
{
    if k > 0 {
        let d = s.drop_last();
        assert forall|i: int| d.len() - (k - 1) <= i < d.len() implies is_space(#[trigger] d[i]) by {
            assert(d[i] == s[i]);
        }
        if k - 1 < d.len() {
            assert(d[d.len() - (k - 1) - 1] == s[s.len() - k - 1]);
        }
        lemma_trailing_spaces_exact(d, k - 1);
    }
}

/// A sequence that neither starts nor ends with whitespace is its own trim.
pub proof fn lemma_trim_no_spaces(s: Seq<char>)
    requires
        s.len() > 0 ==> !is_space(s[0]) && !is_space(s.last()),
    ensures
        trim(s) == s,
{
    lemma_leading_spaces_exact(s, 0);
    assert(s.skip(0) =~= s);
    lemma_trailing_spaces_exact(s, 0);
    assert(s.take(s.len() as int) =~= s);
}

/// Trimming twice is trimming once.
pub proof fn lemma_trim_trimmed(s: Seq<char>)
    ensures
        trim(s).len() > 0 ==> !is_space(trim(s)[0]) && !is_space(trim(s).last()),
        trim(trim(s)) == trim(s),
{
    lemma_leading_spaces(s);
    let t = s.skip(leading_spaces(s) as int);
    lemma_trailing_spaces(t);
    let r = trim(s);
    if r.len() > 0 {
        assert(r[0] == t[0]);
        assert(r.last() == t[t.len() - trailing_spaces(t) - 1]);
    }
    lemma_trim_no_spaces(r);
}

/// The trimmed characters of `cs` (as indices `[lo, hi)`).
pub fn trim_bounds(cs: &[char]) -> (r: (usize, usize))
    ensures
        r.0 <= r.1 <= cs@.len(),
        cs@.subrange(r.0 as int, r.1 as int) == trim(cs@),
{
    let n = cs.len();
    let mut lo: usize = 0;
    while lo < n && char_is_space(cs[lo])
        invariant
            n == cs@.len(),
            lo <= n,
            forall|i: int| 0 <= i < lo ==> is_space(#[trigger] cs@[i]),
        decreases n - lo,
    {
        lo = lo + 1;
    }
    let mut hi: usize = n;
    while hi > lo && char_is_space(cs[hi - 1])
        invariant
            n == cs@.len(),
            lo <= hi <= n,
            forall|i: int| hi <= i < n ==> is_space(#[trigger] cs@[i]),
        decreases hi,
    {
        hi = hi - 1;
    }
    proof {
        let s = cs@;
        lemma_leading_spaces_exact(s, lo as int);
        let t = s.skip(lo as int);
        assert forall|i: int| t.len() - (n - hi) <= i < t.len() implies is_space(#[trigger] t[i]) by {
            assert(t[i] == s[i + lo]);
        }
        if n - hi < t.len() {
            assert(t[t.len() - (n - hi) - 1] == s[hi - 1]);
        }
        lemma_trailing_spaces_exact(t, (n - hi) as int);
        assert(s.subrange(lo as int, hi as int) =~= t.take(t.len() - trailing_spaces(t)));
    }
    (lo, hi)
}

/// The decimal digit character for `d < 10`.
pub open spec fn digit_char(d: int) -> char {
    (48 + d) as char
}

/// Decimal rendering of `n` (no sign, no leading zeros).
pub open spec fn decimal(n: nat) -> Seq<char>
    decreases n,
{
    if n < 10 {
        seq![digit_char(n as int)]
    } else {
        decimal(n / 10).push(digit_char((n % 10) as int))
    }
}

/// The uppercase hexadecimal digit character for `d < 16`.
pub open spec fn hex_char(d: int) -> char {
    if d < 10 {
        (48 + d) as char
    } else {
        (55 + d) as char
    }
}

/// Uppercase hexadecimal rendering of `n` (no leading zeros).
pub open spec fn hex_upper(n: nat) -> Seq<char>
    decreases n,
{
    if n < 16 {
        seq![hex_char(n as int)]
    } else {
        hex_upper(n / 16).push(hex_char((n % 16) as int))
    }
}

/// `s` left-padded with '0' to at least `width` characters.
pub open spec fn zero_pad(s: Seq<char>, width: nat) -> Seq<char> {
    if s.len() >= width {
        s
    } else {
        Seq::new((width - s.len()) as nat, |i: int| '0') + s
    }
}

/// `format!("{:0w$X}", n)`.
pub open spec fn hex_padded(n: nat, width: nat) -> Seq<char> {
    zero_pad(hex_upper(n), width)
}

fn digit_to_char(d: u32) -> (c: char)
    requires
        d < 10,
    ensures
        c == digit_char(d as int),
{
    let b: u8 = 48u8 + (d as u8);
    b as char
}

fn hex_digit_to_char(d: u32) -> (c: char)
    requires
        d < 16,
    ensures
        c == hex_char(d as int),
{
    if d < 10 {
        let b: u8 = 48u8 + (d as u8);
        b as char
    } else {
        let b: u8 = 55u8 + (d as u8);
        b as char
    }
}

/// Appends the decimal rendering of `n`.
pub fn push_decimal(s: &mut String, n: u64)
    ensures
        final(s)@ == old(s)@ + decimal(n as nat),
    decreases n,
{
    if n >= 10 {
        push_decimal(s, n / 10);
        push_char(s, digit_to_char((n % 10) as u32));
        proof {
            assert(decimal(n as nat) == decimal((n / 10) as nat).push(digit_char((n % 10) as int)));
        }
    } else {
        push_char(s, digit_to_char(n as u32));
    }
}

/// Appends the uppercase hexadecimal rendering of `n`.
pub fn push_hex(s: &mut String, n: u32)
    ensures
        final(s)@ == old(s)@ + hex_upper(n as nat),
    decreases n,
{
    if n >= 16 {
        push_hex(s, n / 16);
        push_char(s, hex_digit_to_char(n % 16));
        proof {
            assert(hex_upper(n as nat) == hex_upper((n / 16) as nat).push(
                hex_char((n % 16) as int),
            ));
        }
    } else {
        push_char(s, hex_digit_to_char(n));
    }
}

/// Number of hexadecimal digits of `n`.
fn hex_len(n: u32) -> (r: usize)
    ensures
        r == hex_upper(n as nat).len(),
        r <= 8,
    decreases n,
{
    if n >= 16 {
        let k = hex_len(n / 16);
        proof {
            lemma_hex_len_bound(n as nat);
        }
        k + 1
    } else {
        1
    }
}

proof fn lemma_hex_len_bound(n: nat)
    requires
        n <= u32::MAX,
    ensures
        hex_upper(n).len() <= 8,
        n < 0x1000_0000 ==> hex_upper(n).len() <= 7,
        n < 0x100_0000 ==> hex_upper(n).len() <= 6,
        n < 0x10_0000 ==> hex_upper(n).len() <= 5,
        n < 0x1_0000 ==> hex_upper(n).len() <= 4,
        n < 0x1000 ==> hex_upper(n).len() <= 3,
        n < 0x100 ==> hex_upper(n).len() <= 2,
        n < 0x10 ==> hex_upper(n).len() <= 1,
    decreases n,
{
    if n >= 16 {
        lemma_hex_len_bound(n / 16);
    }
}

/// Appends `format!("{:0width$X}", n)`.
pub fn push_hex_padded(s: &mut String, n: u32, width: usize)
    requires
        width <= 16,
    ensures
        final(s)@ == old(s)@ + hex_padded(n as nat, width as nat),
{
    let k = hex_len(n);
    let ghost start = s@;
    if k < width {
        let mut i: usize = k;
        while i < width
            invariant
                k <= i <= width,
                s@ == start + Seq::new((i - k) as nat, |j: int| '0'),
            decreases width - i,
        {
            push_char(s, '0');
            i = i + 1;
            proof {
                assert(s@ =~= start + Seq::new((i - k) as nat, |j: int| '0'));
            }
        }
    }
    let ghost mid = s@;
    push_hex(s, n);
    proof {
        assert(s@ =~= start + hex_padded(n as nat, width as nat));
    }
}

/// The lowercase hexadecimal digit character for `d < 16`.
pub open spec fn hex_char_lower(d: int) -> char {
    if d < 10 {
        (48 + d) as char
    } else {
        (87 + d) as char
    }
}

/// Lowercase hexadecimal rendering of `n` (no leading zeros).
pub open spec fn hex_lower(n: nat) -> Seq<char>
    decreases n,
{
    if n < 16 {
        seq![hex_char_lower(n as int)]
    } else {
        hex_lower(n / 16).push(hex_char_lower((n % 16) as int))
    }
}

fn hex_digit_to_lower(d: u64) -> (c: char)
    requires
        d < 16,
    ensures
        c == hex_char_lower(d as int),
{
    if d < 10 {
        let b: u8 = 48u8 + (d as u8);
        b as char
    } else {
        let b: u8 = 87u8 + (d as u8);
        b as char
    }
}

/// Appends the lowercase hexadecimal rendering of `n`.
pub fn push_hex_lower(s: &mut String, n: u64)
    ensures
        final(s)@ == old(s)@ + hex_lower(n as nat),
    decreases n,
{
    if n >= 16 {
        push_hex_lower(s, n / 16);
        push_char(s, hex_digit_to_lower(n % 16));
        proof {
            assert(hex_lower(n as nat) == hex_lower((n / 16) as nat).push(
                hex_char_lower((n % 16) as int),
            ));
        }
    } else {
        push_char(s, hex_digit_to_lower(n));
    }
}

proof fn lemma_hex_lower_len(n: nat)
    ensures
        hex_lower(n).len() >= 1,
        n < 16 ==> hex_lower(n).len() == 1,
        n >= 16 ==> hex_lower(n).len() == hex_lower(n / 16).len() + 1,
{
}

/// Number of lowercase hexadecimal digits of `n`.
fn hex_lower_len(n: u64) -> (r: u64)
    ensures
        r == hex_lower(n as nat).len(),
    decreases n,
{
    proof {
        lemma_hex_lower_len(n as nat);
    }
    if n >= 16 {
        let k = hex_lower_len(n / 16);
        proof {
            lemma_hex_lower_bound((n / 16) as nat);
        }
        k + 1
    } else {
        1
    }
}

proof fn lemma_hex_lower_bound(n: nat)
    ensures
        hex_lower(n).len() <= n + 1,
    decreases n,
{
    if n >= 16 {
        lemma_hex_lower_bound(n / 16);
    }
}

/// `format!("{:#0w$x}", n)` with `w = width + 2`: "0x" and the lowercase
/// digits left-padded with '0' to `width`.
pub open spec fn hex_lower_prefixed(n: nat, width: nat) -> Seq<char> {
    "0x"@ + zero_pad(hex_lower(n), width)
}

/// Appends `format!("{:#0w$x}", n)` with `w = width + 2`.
pub fn push_hex_lower_prefixed(s: &mut String, n: u64, width: usize)
    ensures
        final(s)@ == old(s)@ + hex_lower_prefixed(n as nat, width as nat),
{
    push_str(s, "0x");
    let k = hex_lower_len(n);
    let w = width as u64;
    let ghost start = s@;
    if k < w {
        let mut i: u64 = k;
        while i < w
            invariant
                w == width,
                k <= i <= w,
                s@ == start + Seq::new((i - k) as nat, |j: int| '0'),
            decreases w - i,
        {
            push_char(s, '0');
            i = i + 1;
            proof {
                assert(s@ =~= start + Seq::new((i - k) as nat, |j: int| '0'));
            }
        }
    }
    push_hex_lower(s, n);
    proof {
        assert(s@ =~= old(s)@ + hex_lower_prefixed(n as nat, width as nat));
    }
}

/// Lexicographic "less than" on characters (code point order). This is the
/// order of `String`'s `Ord`: UTF-8 byte order and code point order agree.
pub open spec fn lex_lt(a: Seq<char>, b: Seq<char>) -> bool
    decreases a.len(),
{
    if a.len() == 0 {
        b.len() > 0
    } else if b.len() == 0 {
        false
    } else if a[0] != b[0] {
        (a[0] as u32) < (b[0] as u32)
    } else {
        lex_lt(a.drop_first(), b.drop_first())
    }
}


/// Inserting `x` adds exactly `x` to what a sequence contains.
pub proof fn lemma_seq_insert_contains<A>(s: Seq<A>, p: int, x: A, y: A)
    requires
        0 <= p <= s.len(),
    ensures
        s.insert(p, x).contains(y) <==> (s.contains(y) || y == x),
{
    let r = s.insert(p, x);
    if r.contains(y) {
        let k = choose|k: int| 0 <= k < r.len() && r[k] == y;
        if k < p {
            assert(s[k] == y);
        } else if k > p {
            assert(s[k - 1] == y);
        }
    }
    if s.contains(y) {
        let k = choose|k: int| 0 <= k < s.len() && s[k] == y;
        if k < p {
            assert(r[k] == y);
        } else {
            assert(r[k + 1] == y);
        }
    }
    if y == x {
        assert(r[p] == y);
    }
}

/// A sequence contains what its front contains and its last element.
pub proof fn lemma_seq_drop_last_contains<A>(s: Seq<A>, y: A)
    requires
        s.len() > 0,
    ensures
        s.contains(y) <==> (s.drop_last().contains(y) || y == s.last()),
{
    if s.contains(y) {
        let k = choose|k: int| 0 <= k < s.len() && s[k] == y;
        if k < s.len() - 1 {
            assert(s.drop_last()[k] == y);
        }
    }
    if s.drop_last().contains(y) {
        let k = choose|k: int| 0 <= k < s.len() - 1 && s.drop_last()[k] == y;
        assert(s[k] == y);
    }
}

/// Nothing is less than itself.
pub proof fn lemma_lex_lt_irreflexive(a: Seq<char>)
    ensures
        !lex_lt(a, a),
    decreases a.len(),
{
    if a.len() > 0 {
        lemma_lex_lt_irreflexive(a.drop_first());
    }
}

/// String order is transitive.
pub proof fn lemma_lex_lt_transitive(a: Seq<char>, b: Seq<char>, c: Seq<char>)
    requires
        lex_lt(a, b),
        lex_lt(b, c),
    ensures
        lex_lt(a, c),
    decreases a.len(),
{
    if a.len() > 0 && b.len() > 0 && c.len() > 0 && a[0] == b[0] && b[0] == c[0] {
        lemma_lex_lt_transitive(a.drop_first(), b.drop_first(), c.drop_first());
    }
}

/// `a < b` in string order.
pub fn chars_lt(a: &[char], b: &[char]) -> (r: bool)
    ensures
        r == lex_lt(a@, b@),
{
    let mut i: usize = 0;
    proof {
        assert(a@.skip(0) =~= a@);
        assert(b@.skip(0) =~= b@);
    }
    while i < a.len() && i < b.len() && a[i] == b[i]
        invariant
            i <= a@.len(),
            i <= b@.len(),
            lex_lt(a@, b@) == lex_lt(a@.skip(i as int), b@.skip(i as int)),
        decreases a@.len() - i,
    {
        proof {
            let sa = a@.skip(i as int);
            let sb = b@.skip(i as int);
            assert(sa.drop_first() =~= a@.skip(i + 1));
            assert(sb.drop_first() =~= b@.skip(i + 1));
        }
        i = i + 1;
    }
    proof {
        let sa = a@.skip(i as int);
        let sb = b@.skip(i as int);
        if i < a@.len() && i < b@.len() {
            assert(sa[0] == a@[i as int]);
            assert(sb[0] == b@[i as int]);
        }
    }
    if i == a.len() {
        i < b.len()
    } else if i == b.len() {
        false
    } else {
        (a[i] as u32) < (b[i] as u32)
    }
}

/// `a < b` in string order, for strings.
pub fn string_lt(a: &String, b: &String) -> (r: bool)
    ensures
        r == lex_lt(a@, b@),
{
    let ca = chars_of(a.as_str());
    let cb = chars_of(b.as_str());
    chars_lt(&ca, &cb)
}

/// ASCII lowercase of one character (`char::to_ascii_lowercase`).
pub open spec fn ascii_lower(c: char) -> char {
    if 65 <= c as u32 <= 90 {
        ((c as u32) + 32) as char
    } else {
        c
    }
}

/// `str::to_ascii_lowercase`.
pub open spec fn ascii_lowercase(s: Seq<char>) -> Seq<char> {
    Seq::new(s.len(), |i: int| ascii_lower(s[i]))
}

/// `needle` occurs in `s` starting at index `i`.
pub open spec fn occurs_at(s: Seq<char>, needle: Seq<char>, i: int) -> bool {
    0 <= i && i + needle.len() <= s.len() && s.subrange(i, i + needle.len()) == needle
}

/// `str::contains`.
pub open spec fn contains_seq(s: Seq<char>, needle: Seq<char>) -> bool {
    exists|i: int| occurs_at(s, needle, i)
}

/// The first index at or after `i` where `needle` occurs in `s`.
pub open spec fn find_from(s: Seq<char>, needle: Seq<char>, i: int) -> Option<int>
    decreases s.len() + 1 - i,
{
    if i < 0 || i + needle.len() > s.len() {
        None
    } else if occurs_at(s, needle, i) {
        Some(i)
    } else {
        find_from(s, needle, i + 1)
    }
}

/// Does `cs[i..]` start with `needle`?
fn occurs_at_exec(cs: &[char], needle: &[char], i: usize) -> (r: bool)
    ensures
        r == occurs_at(cs@, needle@, i as int),
{
    if i > cs.len() || needle.len() > cs.len() - i {
        return false;
    }
    let mut k: usize = 0;
    while k < needle.len()
        invariant
            i + needle@.len() <= cs@.len(),
            cs@.len() <= usize::MAX,
            k <= needle@.len(),
            forall|j: int| 0 <= j < k ==> cs@[i + j] == needle@[j],
        decreases needle@.len() - k,
    {
        if cs[i + k] != needle[k] {
            proof {
                assert(cs@.subrange(i as int, i + needle@.len())[k as int] != needle@[k as int]);
            }
            return false;
        }
        k = k + 1;
    }
    proof {
        assert(cs@.subrange(i as int, i + needle@.len()) =~= needle@);
    }
    true
}

/// First occurrence of `needle` in `cs` (`str::find`).
pub fn find_chars(cs: &[char], needle: &[char]) -> (r: Option<usize>)
    ensures
        match r {
            Some(i) => find_from(cs@, needle@, 0) == Some(i as int),
            None => find_from(cs@, needle@, 0) is None,
        },
{
    if needle.len() > cs.len() {
        assert(find_from(cs@, needle@, 0) is None);
        return None;
    }
    let last = cs.len() - needle.len();
    let mut i: usize = 0;
    while i <= last
        invariant
            last + needle@.len() == cs@.len(),
            i <= last + 1,
            find_from(cs@, needle@, 0) == find_from(cs@, needle@, i as int),
        decreases last + 1 - i,
    {
        if occurs_at_exec(cs, needle, i) {
            return Some(i);
        }
        if i == last {
            assert(find_from(cs@, needle@, i + 1) is None);
            return None;
        }
        i = i + 1;
    }
    None
}

/// Does `needle` occur in `cs`?
pub fn contains_chars(cs: &[char], needle: &[char]) -> (r: bool)
    ensures
        r == contains_seq(cs@, needle@),
{
    let f = find_chars(cs, needle);
    proof {
        lemma_find_from_none(cs@, needle@, 0);
        if f is Some {
            lemma_find_from_some(cs@, needle@, 0);
        }
    }
    f.is_some()
}

pub proof fn lemma_find_from_some(s: Seq<char>, needle: Seq<char>, i: int)
    requires
        find_from(s, needle, i) is Some,
    ensures
        occurs_at(s, needle, find_from(s, needle, i)->0),
        i <= find_from(s, needle, i)->0,
        forall|j: int| i <= j < find_from(s, needle, i)->0 ==> !occurs_at(s, needle, j),
    decreases s.len() + 1 - i,
{
    if !occurs_at(s, needle, i) {
        lemma_find_from_some(s, needle, i + 1);
    }
}

pub proof fn lemma_find_from_none(s: Seq<char>, needle: Seq<char>, i: int)
    requires
        0 <= i,
    ensures
        find_from(s, needle, i) is None ==> forall|j: int| i <= j ==> !occurs_at(s, needle, j),
    decreases s.len() + 1 - i,
{
    if i + needle.len() <= s.len() && !occurs_at(s, needle, i) {
        lemma_find_from_none(s, needle, i + 1);
    }
}

} // verus!
