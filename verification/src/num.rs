//! Decimal number text: recognizing and evaluating the integer strings the
//! telemetry fields carry, rendering integers for command wire strings, and
//! recognizing floating-point number text, which this crate stores verbatim.

use vstd::prelude::*;
use crate::text::ascii_of;
use crate::text::find_first;

verus! {

pub open spec fn is_digit(b: u8) -> bool {
    48 <= b && b <= 57
}

pub open spec fn all_digits(s: Seq<u8>) -> bool {
    forall|i: int| 0 <= i < s.len() ==> is_digit(#[trigger] s[i])
}

/// Value of a string of decimal digits.
pub open spec fn digits_val(s: Seq<u8>) -> int
    decreases s.len(),
{
    if s.len() == 0 {
        0
    } else {
        digits_val(s.drop_last()) * 10 + (s.last() - 48)
    }
}

proof fn lemma_digits_val_nonneg(s: Seq<u8>)
    requires
        all_digits(s),
    ensures
        digits_val(s) >= 0,
    decreases s.len(),
{
    if s.len() > 0 {
        lemma_digits_val_nonneg(s.drop_last());
    }
}

proof fn lemma_digits_prefix_bound(s: Seq<u8>, k: int)
    requires
        all_digits(s),
        0 <= k <= s.len(),
    ensures
        digits_val(s.take(k)) <= digits_val(s),
    decreases s.len(),
{
    if k == s.len() {
        assert(s.take(k) =~= s);
    } else {
        assert(s.drop_last().take(k) =~= s.take(k));
        lemma_digits_prefix_bound(s.drop_last(), k);
        lemma_digits_val_nonneg(s.drop_last());
    }
}

/// Whether `s` starts with an explicit sign byte.
pub open spec fn has_sign(s: Seq<u8>) -> bool {
    s.len() > 0 && (s[0] == 43 || s[0] == 45)
}

/// `s` without its sign byte, if any.
pub open spec fn sign_body(s: Seq<u8>) -> Seq<u8> {
    if has_sign(s) {
        s.drop_first()
    } else {
        s
    }
}

pub open spec fn is_negative(s: Seq<u8>) -> bool {
    s.len() > 0 && s[0] == 45
}

/// Signed decimal integer text: an optional sign, then one or more digits.
pub open spec fn is_int_text(s: Seq<u8>) -> bool {
    sign_body(s).len() > 0 && all_digits(sign_body(s))
}

/// The integer an integer text denotes.
pub open spec fn int_text_val(s: Seq<u8>) -> int {
    if is_negative(s) {
        -digits_val(sign_body(s))
    } else {
        digits_val(sign_body(s))
    }
}

/// Unsigned decimal integer text: a minus sign is rejected.
pub open spec fn is_uint_text(s: Seq<u8>) -> bool {
    is_int_text(s) && !is_negative(s)
}

pub open spec fn is_u8_text(s: Seq<u8>) -> bool {
    is_uint_text(s) && int_text_val(s) <= 255
}

pub open spec fn is_u16_text(s: Seq<u8>) -> bool {
    is_uint_text(s) && int_text_val(s) <= 65535
}

pub open spec fn is_i16_text(s: Seq<u8>) -> bool {
    is_int_text(s) && -32768 <= int_text_val(s) <= 32767
}

/// Evaluates the digits of `s` from `start` on, refusing any value above
/// `bound`, a non-digit, or an empty digit string.
fn parse_digits(s: &[u8], start: usize, bound: u32) -> (r: Option<u32>)
    requires
        start <= s@.len(),
        bound <= 100000,
    ensures
        r is Some <==> (start < s@.len() && all_digits(s@.skip(start as int)) && digits_val(
            s@.skip(start as int),
        ) <= bound),
        r matches Some(v) ==> v as int == digits_val(s@.skip(start as int)),
{
    let ghost suffix = s@.skip(start as int);
    if start == s.len() {
        return None;
    }
    let mut acc: u32 = 0;
    let mut i: usize = start;
    while i < s.len()
        invariant
            start <= i <= s@.len(),
            start < s@.len(),
            bound <= 100000,
            suffix == s@.skip(start as int),
            all_digits(s@.subrange(start as int, i as int)),
            acc as int == digits_val(s@.subrange(start as int, i as int)),
            acc <= bound,
        decreases s@.len() - i,
    {
        let b = s[i];
        proof {
            assert(suffix[i - start] == s@[i as int]);
        }
        if !(48 <= b && b <= 57) {
            return None;
        }
        let next: u32 = acc * 10 + (b - 48) as u32;
        proof {
            let prev = s@.subrange(start as int, i as int);
            let cur = s@.subrange(start as int, i as int + 1);
            assert(cur.drop_last() =~= prev);
            assert(cur.last() == s@[i as int]);
            assert(digits_val(cur) == acc * 10 + (b - 48));
        }
        if next > bound {
            proof {
                if all_digits(suffix) {
                    assert(suffix.take(i + 1 - start) =~= s@.subrange(start as int, i as int + 1));
                    lemma_digits_prefix_bound(suffix, i + 1 - start);
                }
            }
            return None;
        }
        acc = next;
        i = i + 1;
    }
    proof {
        assert(s@.subrange(start as int, s@.len() as int) =~= suffix);
    }
    Some(acc)
}

/// Parses unsigned decimal text such as `u8::from_str` accepts, with `bound`
/// as the largest admissible value.
fn parse_uint(s: &[u8], bound: u32) -> (r: Option<u32>)
    requires
        bound <= 100000,
    ensures
        r is Some <==> (is_uint_text(s@) && int_text_val(s@) <= bound),
        r matches Some(v) ==> v as int == int_text_val(s@),
{
    if s.len() > 0 && s[0] == 45 {
        return None;
    }
    let start: usize = if s.len() > 0 && s[0] == 43 {
        1
    } else {
        0
    };
    proof {
        if start == 1 {
            assert(s@.skip(1) =~= sign_body(s@));
        } else {
            assert(s@.skip(0) =~= sign_body(s@));
        }
        if is_uint_text(s@) {
            lemma_digits_val_nonneg(sign_body(s@));
        }
    }
    parse_digits(s, start, bound)
}

/// Parses decimal text into a `u8` exactly as `u8::from_str` would.
pub fn parse_u8(s: &[u8]) -> (r: Option<u8>)
    ensures
        r is Some <==> is_u8_text(s@),
        r matches Some(v) ==> v as int == int_text_val(s@),
{
    match parse_uint(s, 255) {
        Some(v) => Some(v as u8),
        None => None,
    }
}

/// Parses decimal text into a `u16` exactly as `u16::from_str` would.
pub fn parse_u16(s: &[u8]) -> (r: Option<u16>)
    ensures
        r is Some <==> is_u16_text(s@),
        r matches Some(v) ==> v as int == int_text_val(s@),
{
    match parse_uint(s, 65535) {
        Some(v) => Some(v as u16),
        None => None,
    }
}

/// Parses decimal text into an `i16` exactly as `i16::from_str` would.
pub fn parse_i16(s: &[u8]) -> (r: Option<i16>)
    ensures
        r is Some <==> is_i16_text(s@),
        r matches Some(v) ==> v as int == int_text_val(s@),
{
    let neg = s.len() > 0 && s[0] == 45;
    let start: usize = if s.len() > 0 && (s[0] == 43 || s[0] == 45) {
        1
    } else {
        0
    };
    proof {
        if start == 1 {
            assert(s@.skip(1) =~= sign_body(s@));
        } else {
            assert(s@.skip(0) =~= sign_body(s@));
        }
        if is_int_text(s@) {
            lemma_digits_val_nonneg(sign_body(s@));
        }
    }
    match parse_digits(s, start, 32768) {
        Some(v) => {
            if neg {
                Some((-(v as i32)) as i16)
            } else if v <= 32767 {
                Some(v as i16)
            } else {
                None
            }
        },
        None => None,
    }
}

/// The decimal digits of `n`, most significant first, for `n >= 0`.
pub open spec fn dec_rep(n: int) -> Seq<u8>
    decreases n,
{
    if n <= 9 {
        seq![(48 + n) as u8]
    } else {
        dec_rep(n / 10).push((48 + n % 10) as u8)
    }
}

/// The decimal rendering of an integer, with a minus sign when negative.
pub open spec fn dec_int_rep(n: int) -> Seq<u8> {
    if n < 0 {
        seq![45u8] + dec_rep(-n)
    } else {
        dec_rep(n)
    }
}

fn push_dec_u64(n: u64, out: &mut Vec<u8>)
    ensures
        final(out)@ == old(out)@ + dec_rep(n as int),
    decreases n,
{
    if n <= 9 {
        out.push(48 + n as u8);
        assert(out@ =~= old(out)@ + dec_rep(n as int));
    } else {
        push_dec_u64(n / 10, out);
        out.push(48 + (n % 10) as u8);
        assert(out@ =~= old(out)@ + dec_rep(n as int));
    }
}

/// Renders `n` in decimal.
pub fn fmt_u64(n: u64) -> (r: Vec<u8>)
    ensures
        r@ == dec_rep(n as int),
{
    let mut out: Vec<u8> = Vec::new();
    push_dec_u64(n, &mut out);
    assert(out@ =~= dec_rep(n as int));
    out
}

/// Renders `n` in decimal, with a minus sign when negative.
pub fn fmt_i8(n: i8) -> (r: Vec<u8>)
    ensures
        r@ == dec_int_rep(n as int),
{
    let mut out: Vec<u8> = Vec::new();
    if n < 0 {
        out.push(45);
        let m: u64 = (-(n as i64)) as u64;
        push_dec_u64(m, &mut out);
        assert(out@ =~= dec_int_rep(n as int));
    } else {
        push_dec_u64(n as u64, &mut out);
        assert(out@ =~= dec_int_rep(n as int));
    }
    out
}

/// ASCII lower-casing of one byte.
pub open spec fn lower(b: u8) -> u8 {
    if 65 <= b && b <= 90 {
        (b + 32) as u8
    } else {
        b
    }
}

/// ASCII lower-casing of a byte string.
pub open spec fn to_lower(s: Seq<u8>) -> Seq<u8> {
    s.map_values(|b: u8| lower(b))
}

/// How many times `b` occurs in `s`.
pub open spec fn count_byte(s: Seq<u8>, b: u8) -> int
    decreases s.len(),
{
    if s.len() == 0 {
        0
    } else {
        count_byte(s.drop_last(), b) + if s.last() == b {
            1int
        } else {
            0int
        }
    }
}

/// The mantissa of a decimal float: at least one digit, at most one point,
/// and nothing else.
pub open spec fn is_mantissa(s: Seq<u8>) -> bool {
    &&& s.len() > 0
    &&& forall|i: int| 0 <= i < s.len() ==> is_digit(#[trigger] s[i]) || s[i] == 46
    &&& count_byte(s, 46) <= 1
    &&& exists|i: int| 0 <= i < s.len() && is_digit(#[trigger] s[i])
}

/// Floating-point number text as `f32::from_str` accepts it: an optional
/// sign, then `inf`, `infinity` or `nan` in any case, or a decimal mantissa
/// with an optional exponent part.
pub open spec fn is_float_text(s: Seq<u8>) -> bool {
    let b = sign_body(s);
    ||| to_lower(b) == ascii_of("inf"@)
    ||| to_lower(b) == ascii_of("infinity"@)
    ||| to_lower(b) == ascii_of("nan"@)
    ||| ({
        let e = find_first(to_lower(b), 101);
        if e >= 0 {
            is_mantissa(b.take(e)) && is_int_text(b.skip(e + 1))
        } else {
            is_mantissa(b)
        }
    })
}

fn to_lower_vec(s: &[u8]) -> (r: Vec<u8>)
    ensures
        r@ == to_lower(s@),
{
    let mut out: Vec<u8> = Vec::new();
    let mut i: usize = 0;
    while i < s.len()
        invariant
            0 <= i <= s@.len(),
            out@.len() == i,
            forall|j: int| 0 <= j < i ==> out@[j] == lower(s@[j]),
        decreases s@.len() - i,
    {
        let b = s[i];
        if 65 <= b && b <= 90 {
            out.push(b + 32);
        } else {
            out.push(b);
        }
        i = i + 1;
    }
    assert(out@ =~= to_lower(s@));
    out
}

fn is_mantissa_x(s: &[u8]) -> (r: bool)
    ensures
        r == is_mantissa(s@),
{
    let mut dots: u64 = 0;
    let mut saw_digit = false;
    let mut i: usize = 0;
    while i < s.len()
        invariant
            0 <= i <= s@.len(),
            dots == count_byte(s@.subrange(0, i as int), 46),
            dots <= i,
            saw_digit == exists|j: int| 0 <= j < i && is_digit(#[trigger] s@[j]),
            forall|j: int| 0 <= j < i ==> is_digit(#[trigger] s@[j]) || s@[j] == 46,
        decreases s@.len() - i,
    {
        let b = s[i];
        proof {
            assert(s@.subrange(0, i as int + 1).drop_last() =~= s@.subrange(0, i as int));
        }
        if 48 <= b && b <= 57 {
            saw_digit = true;
        } else if b == 46 {
            dots = dots + 1;
        } else {
            return false;
        }
        i = i + 1;
    }
    proof {
        assert(s@.subrange(0, s@.len() as int) =~= s@);
    }
    s.len() > 0 && dots <= 1 && saw_digit
}

fn is_int_text_x(s: &[u8]) -> (r: bool)
    ensures
        r == is_int_text(s@),
{
    let start: usize = if s.len() > 0 && (s[0] == 43 || s[0] == 45) {
        1
    } else {
        0
    };
    proof {
        if start == 1 {
            assert(s@.skip(1) =~= sign_body(s@));
        } else {
            assert(s@.skip(0) =~= sign_body(s@));
        }
    }
    if s.len() == start {
        return false;
    }
    let mut i: usize = start;
    while i < s.len()
        invariant
            start <= i <= s@.len(),
            sign_body(s@) == s@.skip(start as int),
            forall|j: int| start <= j < i ==> is_digit(#[trigger] s@[j]),
        decreases s@.len() - i,
    {
        let b = s[i];
        if !(48 <= b && b <= 57) {
            assert(sign_body(s@)[i - start] == s@[i as int]);
            return false;
        }
        i = i + 1;
    }
    assert forall|j: int| 0 <= j < sign_body(s@).len() implies is_digit(
        #[trigger] sign_body(s@)[j],
    ) by {
        assert(sign_body(s@)[j] == s@[j + start]);
    }
    true
}

/// Recognizes floating-point number text.
pub fn is_float_text_x(s: &[u8]) -> (r: bool)
    ensures
        r == is_float_text(s@),
{
    let start: usize = if s.len() > 0 && (s[0] == 43 || s[0] == 45) {
        1
    } else {
        0
    };
    let body = &s[start..s.len()];
    proof {
        if start == 1 {
            assert(s@.skip(1) =~= sign_body(s@));
        } else {
            assert(s@.skip(0) =~= sign_body(s@));
        }
        assert(body@ == sign_body(s@));
    }
    let lb = to_lower_vec(body);
    proof {
        reveal_strlit("inf");
        reveal_strlit("infinity");
        reveal_strlit("nan");
        assert(("inf").is_ascii());
        assert(("infinity").is_ascii());
        assert(("nan").is_ascii());
    }
    let w_inf = crate::text::str_bytes("inf");
    let w_infinity = crate::text::str_bytes("infinity");
    let w_nan = crate::text::str_bytes("nan");
    if crate::text::bytes_eq(lb.as_slice(), w_inf.as_slice()) || crate::text::bytes_eq(
        lb.as_slice(),
        w_infinity.as_slice(),
    ) || crate::text::bytes_eq(lb.as_slice(), w_nan.as_slice()) {
        return true;
    }
    match crate::text::find_byte(lb.as_slice(), 101) {
        Some(e) => {
            let mant = &body[0..e];
            let exp = &body[e + 1..body.len()];
            proof {
                assert(mant@ =~= sign_body(s@).take(e as int));
                assert(exp@ =~= sign_body(s@).skip(e as int + 1));
            }
            let ok = is_mantissa_x(mant) && is_int_text_x(exp);
            ok
        },
        None => is_mantissa_x(body),
    }
}

} // verus!
