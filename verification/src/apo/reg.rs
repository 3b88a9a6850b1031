//! UTF-16 text as the Windows registry stores it: encoding of strings for
//! the wide-character API, and lossy decoding of what the registry returns.
use vstd::prelude::*;
use crate::text::{chars_of, push_char};

verus! {

/// Whether a code unit is a UTF-16 surrogate.
pub open spec fn is_surrogate(u: int) -> bool {
    0xD800 <= u <= 0xDFFF
}

/// The UTF-16 code units of one character.
pub open spec fn utf16_of_char(c: char) -> Seq<u16> {
    let v = (c as u32) as int;
    if v < 0x10000 {
        seq![v as u16]
    } else {
        seq![(0xD800 + (v - 0x10000) / 0x400) as u16, (0xDC00 + (v - 0x10000) % 0x400) as u16]
    }
}

/// UTF-16 encoding of a character sequence.
pub open spec fn utf16_encode(s: Seq<char>) -> Seq<u16>
    decreases s.len(),
{
    if s.len() == 0 {
        seq![]
    } else {
        utf16_of_char(s[0]) + utf16_encode(s.drop_first())
    }
}

/// Lossy UTF-16 decoding: a surrogate pair becomes one character, a
/// surrogate that is not part of a pair becomes U+FFFD, every other unit
/// becomes the character of the same value.
pub open spec fn utf16_decode_lossy(u: Seq<u16>) -> Seq<char>
    decreases u.len(),
{
    if u.len() == 0 {
        seq![]
    } else if !is_surrogate(u[0] as int) {
        seq![(u[0] as u32) as char] + utf16_decode_lossy(u.drop_first())
    } else if u[0] <= 0xDBFF && u.len() >= 2 && 0xDC00 <= u[1] <= 0xDFFF {
        seq![((0x10000 + (u[0] - 0xD800) * 0x400 + (u[1] - 0xDC00)) as u32) as char]
            + utf16_decode_lossy(u.subrange(2, u.len() as int))
    } else {
        seq!['\u{FFFD}'] + utf16_decode_lossy(u.drop_first())
    }
}

/// Number of code units before the first NUL (all of them if there is none).
pub open spec fn nul_prefix_len(u: Seq<u16>) -> nat
    decreases u.len(),
{
    if u.len() == 0 {
        0
    } else if u[0] == 0 {
        0
    } else {
        1 + nul_prefix_len(u.drop_first())
    }
}

/// The code units before the first NUL.
pub open spec fn until_nul(u: Seq<u16>) -> Seq<u16> {
    u.take(nul_prefix_len(u) as int)
}

/// `nul_prefix_len` is the index of the first NUL, or the length when
/// there is none.
proof fn lemma_nul_prefix_len_unique(u: Seq<u16>, n: int)
    requires
        0 <= n <= u.len(),
        forall|j: int| 0 <= j < n ==> u[j] != 0,
        n < u.len() ==> u[n] == 0,
    ensures
        nul_prefix_len(u) == n,
    decreases u.len(),
{
    if u.len() > 0 && u[0] != 0 {
        assert(n > 0);
        let t = u.drop_first();
        assert forall|j: int| 0 <= j < n - 1 implies t[j] != 0 by {
            assert(t[j] == u[j + 1]);
        }
        lemma_nul_prefix_len_unique(t, n - 1);
    }
}

/// Decoding the encoding of a character gives that character back, and
/// leaves what follows to be decoded.
proof fn lemma_decode_char(c: char, t: Seq<u16>)
    ensures
        utf16_decode_lossy(utf16_of_char(c) + t) == seq![c] + utf16_decode_lossy(t),
{
    vstd::utf8::char_is_scalar(c);
    let v = (c as u32) as int;
    let x = utf16_of_char(c) + t;
    if v < 0x10000 {
        assert(x[0] == v as u16);
        assert(x.drop_first() =~= t);
        vstd::utf8::char_u32_cast(c, c as u32);
        assert(((x[0] as u32) as char) == c);
    } else {
        let w = v - 0x10000;
        vstd::arithmetic::div_mod::lemma_fundamental_div_mod(w, 0x400);
        vstd::arithmetic::div_mod::lemma_remainder(w, 0x400);
        assert(w / 0x400 < 0x400) by {
            vstd::arithmetic::div_mod::lemma_div_is_ordered(w, 0x100000 - 1, 0x400);
        }
        assert(0 <= w / 0x400) by {
            vstd::arithmetic::div_mod::lemma_div_pos_is_pos(w, 0x400);
        }
        assert(x[0] == (0xD800 + w / 0x400) as u16);
        assert(x[1] == (0xDC00 + w % 0x400) as u16);
        assert((0x10000 + (x[0] - 0xD800) * 0x400 + (x[1] - 0xDC00)) == v);
        assert(x.subrange(2, x.len() as int) =~= t);
        vstd::utf8::char_u32_cast(c, c as u32);
    }
}

/// Lossy decoding undoes encoding.
pub proof fn lemma_decode_encode(s: Seq<char>)
    ensures
        utf16_decode_lossy(utf16_encode(s)) == s,
    decreases s.len(),
{
    if s.len() > 0 {
        lemma_decode_encode(s.drop_first());
        lemma_decode_char(s[0], utf16_encode(s.drop_first()));
        assert(seq![s[0]] + s.drop_first() =~= s);
    }
}

/// Text without NUL characters encodes to code units without NUL.
proof fn lemma_encode_no_nul(s: Seq<char>)
    requires
        !s.contains('\0'),
    ensures
        forall|j: int| 0 <= j < utf16_encode(s).len() ==> utf16_encode(s)[j] != 0,
    decreases s.len(),
{
    if s.len() > 0 {
        assert(s.drop_first().contains('\0') ==> s.contains('\0')) by {
            if s.drop_first().contains('\0') {
                let k = choose|k: int| 0 <= k < s.drop_first().len() && s.drop_first()[k] == '\0';
                assert(s[k + 1] == '\0');
            }
        }
        lemma_encode_no_nul(s.drop_first());
        let c = s[0];
        assert(c != '\0');
        vstd::utf8::char_is_scalar(c);
        let h = utf16_of_char(c);
        let e = utf16_encode(s);
        assert forall|j: int| 0 <= j < e.len() implies e[j] != 0 by {
            if j < h.len() {
                assert(e[j] == h[j]);
                if (c as u32) < 0x10000 {
                    vstd::utf8::char_u32_cast(c, c as u32);
                    assert((c as u32) != 0);
                }
            } else {
                assert(e[j] == utf16_encode(s.drop_first())[j - h.len()]);
            }
        }
    }
}

/// Round trip through the wide-character form: decoding, up to the NUL,
/// the wide form of a text without NUL characters gives the text back.
pub proof fn lemma_wide_roundtrip(s: Seq<char>)
    requires
        !s.contains('\0'),
    ensures
        utf16_decode_lossy(until_nul(utf16_encode(s).push(0u16))) == s,
{
    let e = utf16_encode(s);
    let w = e.push(0u16);
    lemma_encode_no_nul(s);
    lemma_nul_prefix_len_unique(w, e.len() as int);
    assert(w.take(e.len() as int) =~= e);
    lemma_decode_encode(s);
}

/// UTF-8 text to NUL-terminated UTF-16, for the wide-character API.
pub fn wide(s: &str) -> (r: Vec<u16>)
    ensures
        r@ == utf16_encode(s@).push(0u16),
{
    let cs = chars_of(s);
    let mut out: Vec<u16> = Vec::new();
    let mut i: usize = 0;
    assert(s@.subrange(0, s@.len() as int) =~= s@);
    assert(out@ + utf16_encode(s@) =~= utf16_encode(s@));
    while i < cs.len()
        invariant
            cs@ == s@,
            i <= cs@.len(),
            utf16_encode(s@) == out@ + utf16_encode(s@.subrange(i as int, s@.len() as int)),
        decreases cs@.len() - i,
    {
        let c = cs[i];
        let ghost rest = s@.subrange(i as int, s@.len() as int);
        let ghost before = out@;
        assert(rest[0] == c);
        assert(rest.drop_first() =~= s@.subrange(i + 1, s@.len() as int));
        assert(utf16_encode(rest) == utf16_of_char(c) + utf16_encode(rest.drop_first()));
        let v = c as u32;
        proof {
            vstd::utf8::char_is_scalar(c);
        }
        if v < 0x10000 {
            out.push(v as u16);
            assert(out@ =~= before + utf16_of_char(c));
        } else {
            let w = v - 0x10000;
            assert(w / 0x400 < 0x400);
            out.push((0xD800 + w / 0x400) as u16);
            out.push((0xDC00 + w % 0x400) as u16);
            assert(out@ =~= before + utf16_of_char(c));
        }
        assert(before + (utf16_of_char(c) + utf16_encode(rest.drop_first())) =~= out@
            + utf16_encode(rest.drop_first()));
        i = i + 1;
    }
    assert(s@.subrange(i as int, s@.len() as int) =~= Seq::<char>::empty());
    assert(out@ + utf16_encode(Seq::<char>::empty()) =~= out@);
    out.push(0);
    assert(out@ =~= utf16_encode(s@).push(0u16));
    out
}

/// The character of a Unicode scalar value (std `char::from_u32`): `Some`
/// exactly for scalar values, that is below 0x110000 and not a surrogate.
#[verifier::external_body]
fn char_from_u32(v: u32) -> (r: Option<char>)
    ensures
        vstd::utf8::is_scalar(v) ==> r == Some(v as char),
        !vstd::utf8::is_scalar(v) ==> r is None,
{
    char::from_u32(v)
}

/// UTF-16 text up to the first NUL, decoded lossily (unpaired surrogates
/// become U+FFFD).
pub fn from_wide(buf: &[u16]) -> (r: String)
    ensures
        r@ == utf16_decode_lossy(until_nul(buf@)),
{
    let mut end: usize = 0;
    while end < buf.len() && buf[end] != 0
        invariant
            end <= buf@.len(),
            forall|j: int| 0 <= j < end ==> buf@[j] != 0,
        decreases buf@.len() - end,
    {
        end = end + 1;
    }
    proof {
        lemma_nul_prefix_len_unique(buf@, end as int);
    }
    let ghost u = buf@.take(end as int);
    let mut out = String::new();
    let mut i: usize = 0;
    assert(u.subrange(0, end as int) =~= u);
    assert(out@ + utf16_decode_lossy(u) =~= utf16_decode_lossy(u));
    while i < end
        invariant
            end <= buf@.len(),
            u == buf@.take(end as int),
            i <= end,
            utf16_decode_lossy(u) == out@ + utf16_decode_lossy(u.subrange(i as int, end as int)),
        decreases end - i,
    {
        let ghost rest = u.subrange(i as int, end as int);
        let ghost before = out@;
        let a = buf[i];
        assert(rest[0] == a);
        if a < 0xD800 || a > 0xDFFF {
            let c = match char_from_u32(a as u32) {
                Some(c) => c,
                None => '\u{FFFD}',
            };
            push_char(&mut out, c);
            assert(rest.drop_first() =~= u.subrange(i + 1, end as int));
            assert(before + utf16_decode_lossy(rest) =~= out@ + utf16_decode_lossy(
                u.subrange(i + 1, end as int),
            ));
            i = i + 1;
        } else if a <= 0xDBFF && i + 1 < end && 0xDC00 <= buf[i + 1] && buf[i + 1] <= 0xDFFF {
            let b = buf[i + 1];
            assert(rest[1] == b);
            let hi: u32 = (a - 0xD800) as u32;
            let lo: u32 = (b - 0xDC00) as u32;
            assert(hi * 0x400 <= 0x3FF * 0x400) by (nonlinear_arith)
                requires
                    hi <= 0x3FF,
            ;
            let v: u32 = 0x10000 + hi * 0x400 + lo;
            let c = match char_from_u32(v) {
                Some(c) => c,
                None => '\u{FFFD}',
            };
            push_char(&mut out, c);
            assert(rest.subrange(2, rest.len() as int) =~= u.subrange(i + 2, end as int));
            assert(before + utf16_decode_lossy(rest) =~= out@ + utf16_decode_lossy(
                u.subrange(i + 2, end as int),
            ));
            i = i + 2;
        } else {
            push_char(&mut out, '\u{FFFD}');
            assert(rest.drop_first() =~= u.subrange(i + 1, end as int));
            assert(before + utf16_decode_lossy(rest) =~= out@ + utf16_decode_lossy(
                u.subrange(i + 1, end as int),
            ));
            i = i + 1;
        }
    }
    assert(u.subrange(i as int, end as int) =~= Seq::<u16>::empty());
    assert(out@ + utf16_decode_lossy(Seq::<u16>::empty()) =~= out@);
    out
}

/// Little-endian 16-bit units of a byte buffer, pairing bytes from the
/// start; an odd last byte is dropped.
pub open spec fn le_units(b: Seq<u8>) -> Seq<u16> {
    Seq::new(b.len() / 2, |k: int| (b[2 * k] + 256 * b[2 * k + 1]) as u16)
}

/// Pairs bytes into little-endian 16-bit units (`chunks_exact(2)` with
/// `u16::from_le_bytes`).
pub fn units_from_le_bytes(buf: &[u8]) -> (r: Vec<u16>)
    ensures
        r@ == le_units(buf@),
{
    let len = buf.len();
    let n = len / 2;
    let mut out: Vec<u16> = Vec::new();
    let mut k: usize = 0;
    while k < n
        invariant
            len == buf@.len(),
            n == len / 2,
            k <= n,
            out@.len() == k,
            forall|j: int| 0 <= j < k ==> out@[j] == le_units(buf@)[j],
        decreases n - k,
    {
        assert(2 * k + 1 < buf@.len());
        let lo = buf[2 * k] as u16;
        let hi = buf[2 * k + 1] as u16;
        out.push(lo + 256 * hi);
        k = k + 1;
    }
    assert(out@ =~= le_units(buf@));
    out
}

/// The text of a `REG_SZ` value as the registry returns it: UTF-16LE bytes,
/// read up to the first NUL unit.
pub fn text_from_reg_bytes(buf: &[u8]) -> (r: String)
    ensures
        r@ == utf16_decode_lossy(until_nul(le_units(buf@))),
{
    let units = units_from_le_bytes(buf);
    from_wide(units.as_slice())
}

/// The bytes of 16-bit units in little-endian order, two per unit: the
/// form in which the registry stores a `REG_SZ` value.
pub open spec fn le_bytes(u: Seq<u16>) -> Seq<u8> {
    Seq::new(
        u.len() * 2,
        |k: int|
            if k % 2 == 0 {
                (u[k / 2] % 256) as u8
            } else {
                (u[k / 2] / 256) as u8
            },
    )
}

/// Pairing the little-endian bytes of units gives the units back.
pub proof fn lemma_le_units_of_bytes(u: Seq<u16>)
    ensures
        le_units(le_bytes(u)) == u,
{
    let b = le_bytes(u);
    assert(b.len() / 2 == u.len());
    assert forall|k: int| 0 <= k < u.len() implies #[trigger] le_units(b)[k] == u[k] by {
        assert((2 * k) % 2 == 0);
        assert((2 * k + 1) % 2 == 1);
        assert((2 * k) / 2 == k);
        assert((2 * k + 1) / 2 == k);
        let x = u[k] as int;
        assert(b[2 * k] == (x % 256) as u8);
        assert(b[2 * k + 1] == (x / 256) as u8);
        assert(x == x % 256 + 256 * (x / 256));
    }
    assert(le_units(b) =~= u);
}

/// The bytes written for a `REG_SZ` value `val`: its NUL-terminated UTF-16
/// form, little-endian.
pub fn reg_sz_bytes(val: &str) -> (r: Vec<u8>)
    ensures
        r@ == le_bytes(utf16_encode(val@).push(0u16)),
{
    let w = wide(val);
    let mut out: Vec<u8> = Vec::new();
    let mut k: usize = 0;
    while k < w.len()
        invariant
            w@ == utf16_encode(val@).push(0u16),
            k <= w@.len(),
            out@ == le_bytes(w@.take(k as int)),
        decreases w@.len() - k,
    {
        let x = w[k];
        out.push((x % 256) as u8);
        out.push((x / 256) as u8);
        k = k + 1;
        assert(out@ =~= le_bytes(w@.take(k as int))) by {
            let t = w@.take(k as int);
            assert forall|j: int| 0 <= j < t.len() * 2 implies #[trigger] out@[j] == le_bytes(t)[j] by {
                assert(j / 2 < k);
                if j / 2 < k - 1 {
                    assert(t[j / 2] == w@.take(k - 1)[j / 2]);
                }
            }
        }
    }
    assert(w@.take(k as int) =~= w@);
    out
}

/// Round trip through the registry's bytes: reading back, up to the NUL,
/// the bytes written for a text without NUL characters gives the text.
pub proof fn lemma_reg_sz_roundtrip(s: Seq<char>)
    requires
        !s.contains('\0'),
    ensures
        utf16_decode_lossy(until_nul(le_units(le_bytes(utf16_encode(s).push(0u16))))) == s,
{
    lemma_le_units_of_bytes(utf16_encode(s).push(0u16));
    lemma_wide_roundtrip(s);
}

} // verus!
