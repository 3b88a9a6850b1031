//! Text helpers shared by the rest of the library: character sequences,
//! decimal and hexadecimal rendering.
use vstd::prelude::*;
use vstd::std_specs::iter::IteratorSpec;

verus! {

/// Appends one character to a `String` (std `String::push`).
#[verifier::external_body]
pub(crate) fn push_char(s: &mut String, c: char)
    ensures
        final(s)@ == old(s)@.push(c),
{
    s.push(c);
}

/// The characters of a string slice, in order.
pub fn chars_of(s: &str) -> (r: Vec<char>)
    ensures
        r@ == s@,
{
    let mut out: Vec<char> = Vec::new();
    proof {
        broadcast use vstd::string::group_string_axioms;
    }
    for c in it: s.chars()
        invariant
            it.seq() == s@,
            out@ == it.seq().take(it.index() as int),
    {
        out.push(c);
    }
    out
}

/// The character of a decimal or hexadecimal digit value (`0`-`9`, `a`-`f`).
pub open spec fn digit_char(d: nat) -> char {
    if d < 10 {
        (d + 48) as char
    } else {
        (d + 87) as char
    }
}

/// Digits of `n` written in `base`, most significant first, without
/// leading zeros (zero itself is the one digit `0`).
pub open spec fn digits_in_base(n: nat, base: nat) -> Seq<char>
    recommends
        2 <= base <= 16,
    decreases n,
{
    if n < base || base < 2 {
        seq![digit_char(n)]
    } else {
        proof {
            vstd::arithmetic::div_mod::lemma_div_is_strictly_smaller(n as int, base as int);
        }
        digits_in_base(n / base, base).push(digit_char(n % base))
    }
}

/// Uppercase hexadecimal digits of `n` (as `{:X}` renders it).
pub open spec fn hex_upper_digits(n: nat) -> Seq<char>
    decreases n,
{
    let d = n % 16;
    let c = if d < 10 {
        (d + 48) as char
    } else {
        (d + 55) as char
    };
    if n < 16 {
        seq![c]
    } else {
        hex_upper_digits(n / 16).push(c)
    }
}

/// Decimal rendering of an integer, as `{}` renders it.
pub open spec fn dec_text(v: int) -> Seq<char> {
    if v < 0 {
        seq!['-'] + digits_in_base((-v) as nat, 10)
    } else {
        digits_in_base(v as nat, 10)
    }
}

/// Alternate hexadecimal rendering of an unsigned integer, as `{:#x}`
/// renders it: `0x` and lowercase digits without padding.
pub open spec fn hex_text(v: nat) -> Seq<char> {
    seq!['0', 'x'] + digits_in_base(v, 16)
}

fn digit_of(d: u64) -> (c: char)
    requires
        d < 16,
    ensures
        c == digit_char(d as nat),
{
    if d < 10 {
        ((d as u8) + 48u8) as char
    } else {
        ((d as u8) + 87u8) as char
    }
}

/// Appends the digits of `n` in `base` to `s`.
fn push_digits(s: &mut String, n: u64, base: u64)
    requires
        2 <= base <= 16,
    ensures
        final(s)@ == old(s)@ + digits_in_base(n as nat, base as nat),
    decreases n,
{
    if n >= base {
        proof {
            vstd::arithmetic::div_mod::lemma_div_is_strictly_smaller(n as int, base as int);
        }
        push_digits(s, n / base, base);
    }
    push_char(s, digit_of(n % base));
    proof {
        if n >= base {
            assert(old(s)@ + digits_in_base(n as nat, base as nat) =~= old(s)@ + digits_in_base(
                (n / base) as nat,
                base as nat,
            ) + seq![digit_char((n % base) as nat)]);
        } else {
            vstd::arithmetic::div_mod::lemma_small_mod(n as nat, base as nat);
        }
    }
}

/// Appends the uppercase hexadecimal digits of `n` (`{:X}`) to `s`.
pub fn push_hex_upper(s: &mut String, n: u32)
    ensures
        final(s)@ == old(s)@ + hex_upper_digits(n as nat),
    decreases n,
{
    if n >= 16 {
        push_hex_upper(s, n / 16);
    }
    let d = n % 16;
    let c = if d < 10 {
        ((d as u8) + 48u8) as char
    } else {
        ((d as u8) + 55u8) as char
    };
    push_char(s, c);
    proof {
        if n >= 16 {
            assert(old(s)@ + hex_upper_digits(n as nat) =~= old(s)@ + hex_upper_digits(
                (n / 16) as nat,
            ) + seq![c]);
        }
    }
}

/// Appends the decimal rendering of a signed integer to `s`.
pub fn push_dec_i64(s: &mut String, v: i64)
    ensures
        final(s)@ == old(s)@ + dec_text(v as int),
{
    if v < 0 {
        push_char(s, '-');
        let m: u64 = if v == i64::MIN {
            9223372036854775808u64
        } else {
            (-v) as u64
        };
        push_digits(s, m, 10);
        assert(final(s)@ =~= old(s)@ + dec_text(v as int));
    } else {
        push_digits(s, v as u64, 10);
    }
}

/// Appends the decimal rendering of an unsigned integer to `s`.
pub fn push_dec_u64(s: &mut String, v: u64)
    ensures
        final(s)@ == old(s)@ + dec_text(v as int),
{
    push_digits(s, v, 10);
}

/// Decimal rendering of a signed integer (`format!("{}", v)`).
pub fn dec_string(v: i64) -> (r: String)
    ensures
        r@ == dec_text(v as int),
{
    let mut s = String::new();
    push_dec_i64(&mut s, v);
    assert(s@ =~= dec_text(v as int));
    s
}

/// Alternate hexadecimal rendering (`format!("{:#x}", v)`).
pub fn hex_string(v: u32) -> (r: String)
    ensures
        r@ == hex_text(v as nat),
{
    let mut s = String::new();
    push_char(&mut s, '0');
    push_char(&mut s, 'x');
    push_digits(&mut s, v as u64, 16);
    assert(s@ =~= hex_text(v as nat));
    s
}

/// Sets of characters that the trimming functions strip.
#[derive(Clone, Copy, PartialEq, Eq, Structural)]
pub enum CharSet {
    /// Characters with the Unicode `White_Space` property (`char::is_whitespace`).
    WhiteSpace,
    /// `{`
    OpenBrace,
    /// `}`
    CloseBrace,
    /// `{` and `}`
    Braces,
}

/// Unicode `White_Space`: U+0009..U+000D, U+0020, U+0085, U+00A0, U+1680,
/// U+2000..U+200A, U+2028, U+2029, U+202F, U+205F, U+3000.
pub open spec fn is_white_space(c: char) -> bool {
    let v = c as u32;
    ||| 0x09 <= v <= 0x0D
    ||| v == 0x20
    ||| v == 0x85
    ||| v == 0xA0
    ||| v == 0x1680
    ||| 0x2000 <= v <= 0x200A
    ||| v == 0x2028
    ||| v == 0x2029
    ||| v == 0x202F
    ||| v == 0x205F
    ||| v == 0x3000
}

/// Membership in a `CharSet`.
pub open spec fn in_set(set: CharSet, c: char) -> bool {
    match set {
        CharSet::WhiteSpace => is_white_space(c),
        CharSet::OpenBrace => c == '{',
        CharSet::CloseBrace => c == '}',
        CharSet::Braces => c == '{' || c == '}',
    }
}

/// `s` without its leading characters in `set`.
pub open spec fn strip_start(s: Seq<char>, set: CharSet) -> Seq<char>
    decreases s.len(),
{
    if s.len() > 0 && in_set(set, s[0]) {
        strip_start(s.drop_first(), set)
    } else {
        s
    }
}

/// `s` without its trailing characters in `set`.
pub open spec fn strip_end(s: Seq<char>, set: CharSet) -> Seq<char>
    decreases s.len(),
{
    if s.len() > 0 && in_set(set, s.last()) {
        strip_end(s.drop_last(), set)
    } else {
        s
    }
}

/// `s` without leading and trailing characters in `set`.
pub open spec fn strip_both(s: Seq<char>, set: CharSet) -> Seq<char> {
    strip_end(strip_start(s, set), set)
}

/// `str::trim`.
pub open spec fn trim_text(s: Seq<char>) -> Seq<char> {
    strip_both(s, CharSet::WhiteSpace)
}

fn char_in_set(set: CharSet, c: char) -> (r: bool)
    ensures
        r == in_set(set, c),
{
    match set {
        CharSet::WhiteSpace => {
            let v = c as u32;
            (0x09 <= v && v <= 0x0D) || v == 0x20 || v == 0x85 || v == 0xA0 || v == 0x1680 || (
            0x2000 <= v && v <= 0x200A) || v == 0x2028 || v == 0x2029 || v == 0x202F || v == 0x205F
                || v == 0x3000
        },
        CharSet::OpenBrace => c == '{',
        CharSet::CloseBrace => c == '}',
        CharSet::Braces => c == '{' || c == '}',
    }
}

pub(crate) proof fn lemma_strip_start_at(s: Seq<char>, set: CharSet, lo: int)
    requires
        0 <= lo <= s.len(),
        forall|j: int| 0 <= j < lo ==> in_set(set, #[trigger] s[j]),
        lo < s.len() ==> !in_set(set, s[lo]),
    ensures
        strip_start(s, set) == s.subrange(lo, s.len() as int),
    decreases s.len(),
{
    if lo == 0 {
        assert(s.subrange(0, s.len() as int) =~= s);
    } else {
        let t = s.drop_first();
        assert forall|j: int| 0 <= j < lo - 1 implies in_set(set, #[trigger] t[j]) by {
            assert(t[j] == s[j + 1]);
        }
        lemma_strip_start_at(t, set, lo - 1);
        assert(t.subrange(lo - 1, t.len() as int) =~= s.subrange(lo, s.len() as int));
    }
}

pub(crate) proof fn lemma_strip_end_at(s: Seq<char>, set: CharSet, hi: int)
    requires
        0 <= hi <= s.len(),
        forall|j: int| hi <= j < s.len() ==> in_set(set, #[trigger] s[j]),
        hi > 0 ==> !in_set(set, s[hi - 1]),
    ensures
        strip_end(s, set) == s.subrange(0, hi),
    decreases s.len(),
{
    if hi == s.len() {
        assert(s.subrange(0, s.len() as int) =~= s);
    } else {
        let t = s.drop_last();
        assert forall|j: int| hi <= j < t.len() implies in_set(set, #[trigger] t[j]) by {
            assert(t[j] == s[j]);
        }
        lemma_strip_end_at(t, set, hi);
        assert(t.subrange(0, hi) =~= s.subrange(0, hi));
    }
}

/// The string made of `cs[lo..hi]`.
pub fn string_of_range(cs: &Vec<char>, lo: usize, hi: usize) -> (r: String)
    requires
        lo <= hi <= cs@.len(),
    ensures
        r@ == cs@.subrange(lo as int, hi as int),
{
    let mut out = String::new();
    let mut i = lo;
    while i < hi
        invariant
            lo <= i <= hi,
            hi <= cs@.len(),
            out@ == cs@.subrange(lo as int, i as int),
        decreases hi - i,
    {
        push_char(&mut out, cs[i]);
        i = i + 1;
        assert(out@ =~= cs@.subrange(lo as int, i as int));
    }
    out
}

/// Strips characters in `set` from the start (when `front`) and from the
/// end (when `back`) of `s`.
pub fn strip_chars(s: &str, set: CharSet, front: bool, back: bool) -> (r: String)
    ensures
        r@ == (if front && back {
            strip_both(s@, set)
        } else if front {
            strip_start(s@, set)
        } else if back {
            strip_end(s@, set)
        } else {
            s@
        }),
{
    let cs = chars_of(s);
    let n = cs.len();
    let mut lo: usize = 0;
    if front {
        while lo < n && char_in_set(set, cs[lo])
            invariant
                n == cs@.len(),
                lo <= n,
                forall|j: int| 0 <= j < lo ==> in_set(set, #[trigger] cs@[j]),
            decreases n - lo,
        {
            lo = lo + 1;
        }
        proof {
            lemma_strip_start_at(s@, set, lo as int);
        }
    }
    let ghost mid = s@.subrange(lo as int, n as int);
    let mut hi: usize = n;
    if back {
        while hi > lo && char_in_set(set, cs[hi - 1])
            invariant
                n == cs@.len(),
                lo <= hi <= n,
                forall|j: int| hi <= j < n ==> in_set(set, #[trigger] cs@[j]),
            decreases hi,
        {
            hi = hi - 1;
        }
        proof {
            assert forall|j: int| hi - lo <= j < mid.len() implies in_set(set, #[trigger] mid[j]) by {
                assert(mid[j] == cs@[j + lo]);
            }
            if hi > lo {
                assert(mid[hi - lo - 1] == cs@[hi - 1]);
            }
            lemma_strip_end_at(mid, set, hi - lo);
            assert(mid.subrange(0, hi - lo) =~= s@.subrange(lo as int, hi as int));
        }
    }
    proof {
        if !front {
            assert(mid =~= s@);
        }
        if !back {
            assert(mid =~= s@.subrange(lo as int, hi as int));
        }
    }
    string_of_range(&cs, lo, hi)
}

/// `str::trim`: removes leading and trailing white space.
pub fn trim(s: &str) -> (r: String)
    ensures
        r@ == trim_text(s@),
{
    strip_chars(s, CharSet::WhiteSpace, true, true)
}

/// Number of occurrences of `c` in `s`.
pub open spec fn count_char(s: Seq<char>, c: char) -> nat
    decreases s.len(),
{
    if s.len() == 0 {
        0
    } else {
        count_char(s.drop_last(), c) + if s.last() == c {
            1nat
        } else {
            0nat
        }
    }
}

/// Counts the occurrences of `c` in `s` (`s.matches(c).count()`).
pub fn count_matches(s: &str, c: char) -> (r: usize)
    ensures
        r == count_char(s@, c),
{
    let cs = chars_of(s);
    let mut k: usize = 0;
    let mut i: usize = 0;
    while i < cs.len()
        invariant
            cs@ == s@,
            i <= cs@.len(),
            k == count_char(s@.take(i as int), c),
            k <= i,
        decreases cs@.len() - i,
    {
        assert(s@.take(i + 1).drop_last() =~= s@.take(i as int));
        if cs[i] == c {
            k = k + 1;
        }
        i = i + 1;
    }
    assert(s@.take(i as int) =~= s@);
    k
}

/// Text equality of two string slices.
pub fn str_eq(a: &str, b: &str) -> (r: bool)
    ensures
        r == (a@ == b@),
{
    let x = a.to_owned();
    let y = b.to_owned();
    x == y
}

/// Whether `c` is an ASCII decimal digit.
pub open spec fn is_digit(c: char) -> bool {
    '0' <= c <= '9'
}

/// Value of a sequence of decimal digits.
pub open spec fn digits_value(s: Seq<char>) -> int
    decreases s.len(),
{
    if s.len() == 0 {
        0
    } else {
        digits_value(s.drop_last()) * 10 + ((s.last() as u32) - 48)
    }
}

/// The text after an optional leading `+` or `-`.
pub open spec fn unsigned_part(s: Seq<char>) -> Seq<char> {
    if s.len() > 0 && (s[0] == '-' || s[0] == '+') {
        s.drop_first()
    } else {
        s
    }
}

/// Whether every character of `t` is an ASCII digit.
pub open spec fn all_digits(t: Seq<char>) -> bool {
    forall|j: int| 0 <= j < t.len() ==> is_digit(#[trigger] t[j])
}

/// `str::parse::<i32>`: an optional `+` or `-`, then one or more ASCII
/// digits, with a value that fits in `i32`.
pub open spec fn parse_i32_text(s: Seq<char>) -> Option<i32> {
    let body = unsigned_part(s);
    let v = if s.len() > 0 && s[0] == '-' {
        -digits_value(body)
    } else {
        digits_value(body)
    };
    if body.len() == 0 || !all_digits(body) {
        None
    } else if i32::MIN <= v <= i32::MAX {
        Some(v as i32)
    } else {
        None
    }
}

/// Parses a decimal `i32` as `str::parse::<i32>` does; `None` where it
/// returns an error.
pub fn parse_i32(s: &str) -> (r: Option<i32>)
    ensures
        r == parse_i32_text(s@),
{
    let cs = chars_of(s);
    let n = cs.len();
    let mut start: usize = 0;
    let mut neg = false;
    if n > 0 && (cs[0] == '-' || cs[0] == '+') {
        neg = cs[0] == '-';
        start = 1;
    }
    let ghost body = s@.subrange(start as int, n as int);
    proof {
        if start == 1 {
            assert(body =~= s@.drop_first());
        } else {
            assert(body =~= s@);
        }
    }
    if start == n {
        return None;
    }
    let cap: i64 = 2147483649;
    let mut acc: i64 = 0;
    let mut i: usize = start;
    while i < n
        invariant
            cs@ == s@,
            n == cs@.len(),
            start <= i <= n,
            body == s@.subrange(start as int, n as int),
            body == unsigned_part(s@),
            neg == (s@.len() > 0 && s@[0] == '-'),
            forall|j: int| 0 <= j < i - start ==> is_digit(#[trigger] body[j]),
            acc == if digits_value(body.take(i - start) ) < cap {
                digits_value(body.take(i - start))
            } else {
                cap as int
            },
            0 <= acc <= cap,
            cap == 2147483649,
        decreases n - i,
    {
        let c = cs[i];
        assert(body[i - start] == c);
        if !('0' <= c && c <= '9') {
            assert(!is_digit(body[i - start]));
            return None;
        }
        let d = (c as u32 - 48) as i64;
        assert(body.take(i - start + 1).drop_last() =~= body.take(i - start));
        assert(body.take(i - start + 1).last() == c);
        let next = acc * 10 + d;
        acc = if next < cap {
            next
        } else {
            cap
        };
        i = i + 1;
    }
    assert(body.take(n - start) =~= body);
    if neg {
        if acc <= 2147483648 {
            Some((-acc) as i32)
        } else {
            None
        }
    } else {
        if acc <= 2147483647 {
            Some(acc as i32)
        } else {
            None
        }
    }
}

/// What `format!("{:?}", s)` renders for a string slice: the text in
/// double quotes, with characters escaped as `char::escape_debug` does.
pub uninterp spec fn debug_text(s: Seq<char>) -> Seq<char>;

/// `format!("{:?}", s)` for a string slice (std `<str as Debug>::fmt`).
#[verifier::external_body]
pub(crate) fn debug_quoted(s: &str) -> (r: String)
    ensures
        r@ == debug_text(s@),
{
    format!("{:?}", s)
}

/// `parts` joined by `sep`.
pub open spec fn join_with(parts: Seq<Seq<char>>, sep: Seq<char>) -> Seq<char>
    decreases parts.len(),
{
    if parts.len() == 0 {
        seq![]
    } else if parts.len() == 1 {
        parts[0]
    } else {
        join_with(parts.drop_last(), sep) + sep + parts.last()
    }
}

/// Joining one more part appends the separator and the part (when there
/// was at least one part before).
pub(crate) proof fn lemma_join_push(parts: Seq<Seq<char>>, sep: Seq<char>, e: Seq<char>)
    ensures
        join_with(parts.push(e), sep) == if parts.len() == 0 {
            e
        } else {
            join_with(parts, sep) + sep + e
        },
{
    assert(parts.push(e).drop_last() =~= parts);
}

/// The decimal digits of `n` are digits, non-empty, and denote `n`.
pub(crate) proof fn lemma_digits_value(n: nat)
    ensures
        digits_in_base(n, 10).len() > 0,
        all_digits(digits_in_base(n, 10)),
        digits_value(digits_in_base(n, 10)) == n,
    decreases n,
{
    if n < 10 {
        let d = digits_in_base(n, 10);
        assert(d == seq![digit_char(n)]);
        assert(d.drop_last() =~= Seq::<char>::empty());
        assert((((n + 48) as char) as u32) == n + 48);
        assert(d.last() == digit_char(n));
        assert(digits_value(d.drop_last()) == 0);
        assert(digits_value(d) == n);
    } else {
        vstd::arithmetic::div_mod::lemma_div_is_strictly_smaller(n as int, 10);
        lemma_digits_value(n / 10);
        let d = digits_in_base(n, 10);
        let p = digits_in_base(n / 10, 10);
        assert(d == p.push(digit_char(n % 10)));
        assert(d.drop_last() =~= p);
        assert forall|j: int| 0 <= j < d.len() implies is_digit(#[trigger] d[j]) by {
            if j < p.len() {
                assert(d[j] == p[j]);
            }
        }
        vstd::arithmetic::div_mod::lemma_fundamental_div_mod(n as int, 10);
        vstd::arithmetic::div_mod::lemma_remainder(n as int, 10);
        assert((((n % 10 + 48) as char) as u32) == n % 10 + 48);
        assert(d.last() == digit_char(n % 10));
        assert(digits_value(d) == digits_value(p) * 10 + (n % 10));
        assert(digits_value(d) == n);
    }
}

/// Parsing the decimal rendering of an `i32` gives it back.
pub proof fn lemma_parse_dec_roundtrip(v: i32)
    ensures
        parse_i32_text(dec_text(v as int)) == Some(v),
{
    let t = dec_text(v as int);
    if v < 0 {
        let m = (-(v as int)) as nat;
        lemma_digits_value(m);
        let d = digits_in_base(m, 10);
        assert(t[0] == '-');
        assert(t.drop_first() =~= d);
        assert(unsigned_part(t) == d);
    } else {
        lemma_digits_value(v as nat);
        let d = digits_in_base(v as nat, 10);
        assert(t == d);
        assert(is_digit(d[0]));
        assert(unsigned_part(t) == d);
    }
}

} // verus!
