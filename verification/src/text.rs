//! Byte-string utilities: equality, substring search, whitespace trimming
//! and splitting on a separator byte.  The drone protocol is ASCII text, so
//! all protocol logic in this crate works on byte strings.

use vstd::prelude::*;

verus! {

/// The bytes of an ASCII character sequence, one byte per character.
pub open spec fn ascii_of(s: Seq<char>) -> Seq<u8> {
    Seq::new(s.len(), |i: int| s[i] as u8)
}

/// Turns an ASCII string literal into its byte vector.
pub fn str_bytes(s: &str) -> (r: Vec<u8>)
    requires
        s.is_ascii(),
    ensures
        r@ == ascii_of(s@),
{
    broadcast use vstd::string::is_ascii_spec_bytes;

    let v = vstd::slice::slice_to_vec(s.as_bytes());
    assert(v@ =~= ascii_of(s@));
    v
}

/// ASCII whitespace: space and the control characters tab through carriage
/// return, the set that trimming removes from ASCII text.
pub open spec fn is_space(b: u8) -> bool {
    b == 32 || (9 <= b && b <= 13)
}

fn is_space_x(b: u8) -> (r: bool)
    ensures
        r == is_space(b),
{
    b == 32 || (9 <= b && b <= 13)
}

/// Byte-string equality.
pub fn bytes_eq(a: &[u8], b: &[u8]) -> (r: bool)
    ensures
        r == (a@ == b@),
{
    if a.len() != b.len() {
        assert(a@.len() != b@.len());
        return false;
    }
    let mut i: usize = 0;
    while i < a.len()
        invariant
            0 <= i <= a.len(),
            a@.len() == b@.len(),
            forall|j: int| 0 <= j < i ==> a@[j] == b@[j],
        decreases a.len() - i,
    {
        if a[i] != b[i] {
            return false;
        }
        i = i + 1;
    }
    assert(a@ =~= b@);
    true
}

/// Index of the first occurrence of `b` in `s`, or -1 when `s` has none.
pub open spec fn find_first(s: Seq<u8>, b: u8) -> int
    decreases s.len(),
{
    if s.len() == 0 {
        -1
    } else if s[0] == b {
        0
    } else if find_first(s.drop_first(), b) < 0 {
        -1
    } else {
        find_first(s.drop_first(), b) + 1
    }
}

/// `find_first` names the first occurrence: in range, hitting `b`, and
/// nothing before it is `b`; -1 exactly when `b` does not occur.
pub proof fn lemma_find_first(s: Seq<u8>, b: u8)
    ensures
        -1 <= find_first(s, b) < s.len(),
        find_first(s, b) >= 0 ==> s[find_first(s, b)] == b,
        forall|j: int|
            0 <= j < s.len() && (find_first(s, b) < 0 || j < find_first(s, b)) ==> #[trigger] s[j]
                != b,
    decreases s.len(),
{
    if s.len() > 0 && s[0] != b {
        lemma_find_first(s.drop_first(), b);
        assert forall|j: int|
            0 <= j < s.len() && (find_first(s, b) < 0 || j < find_first(s, b)) implies #[trigger] s[j]
            != b by {
            if j > 0 {
                assert(s.drop_first()[j - 1] == s[j]);
            }
        }
    }
}

/// First index of `b` in `s` as an option.
pub fn find_byte(s: &[u8], b: u8) -> (r: Option<usize>)
    ensures
        r matches Some(i) ==> 0 <= i < s@.len() && find_first(s@, b) == i as int,
        r is None ==> find_first(s@, b) == -1,
{
    proof {
        lemma_find_first(s@, b);
    }
    let mut i: usize = 0;
    while i < s.len()
        invariant
            0 <= i <= s@.len(),
            forall|j: int| 0 <= j < i ==> s@[j] != b,
            -1 <= find_first(s@, b) < s@.len(),
            find_first(s@, b) >= 0 ==> s@[find_first(s@, b)] == b,
            forall|j: int|
                0 <= j < s@.len() && (find_first(s@, b) < 0 || j < find_first(s@, b))
                    ==> s@[j] != b,
        decreases s@.len() - i,
    {
        if s[i] == b {
            return Some(i);
        }
        i = i + 1;
    }
    None
}

/// Whether `n` occurs in `h` as a contiguous subsequence.
pub open spec fn contains_seq(h: Seq<u8>, n: Seq<u8>) -> bool {
    exists|i: int|
        0 <= i && i + n.len() <= h.len() && #[trigger] h.subrange(i, i + n.len() as int) == n
}

/// Substring search.
pub fn contains_bytes(h: &[u8], n: &[u8]) -> (r: bool)
    ensures
        r == contains_seq(h@, n@),
{
    if n.len() > h.len() {
        return false;
    }
    if n.len() == 0 {
        assert(h@.subrange(0, 0 + n@.len() as int) =~= n@);
        return true;
    }
    let mut i: usize = 0;
    while i <= h.len() - n.len()
        invariant
            1 <= n@.len() <= h@.len(),
            0 <= i <= h@.len() - n@.len() + 1,
            forall|j: int| 0 <= j < i ==> #[trigger] h@.subrange(j, j + n@.len() as int) != n@,
        decreases h@.len() - n@.len() + 1 - i,
    {
        let sub = &h[i..i + n.len()];
        if bytes_eq(sub, n) {
            assert(h@.subrange(i as int, i + n@.len() as int) == n@);
            return true;
        }
        i = i + 1;
    }
    false
}

/// `s` with leading whitespace removed.
pub open spec fn trim_front(s: Seq<u8>) -> Seq<u8>
    decreases s.len(),
{
    if s.len() > 0 && is_space(s[0]) {
        trim_front(s.drop_first())
    } else {
        s
    }
}

/// `s` with trailing whitespace removed.
pub open spec fn trim_back(s: Seq<u8>) -> Seq<u8>
    decreases s.len(),
{
    if s.len() > 0 && is_space(s[s.len() - 1]) {
        trim_back(s.drop_last())
    } else {
        s
    }
}

/// `s` with whitespace removed from both ends.
pub open spec fn trim_seq(s: Seq<u8>) -> Seq<u8> {
    trim_back(trim_front(s))
}

/// Removes ASCII whitespace from both ends of `s`.
pub fn trim(s: &[u8]) -> (r: &[u8])
    ensures
        r@ == trim_seq(s@),
{
    assert(s@.skip(0) =~= s@);
    let mut i: usize = 0;
    while i < s.len() && is_space_x(s[i])
        invariant
            0 <= i <= s@.len(),
            trim_front(s@) == trim_front(s@.skip(i as int)),
        decreases s@.len() - i,
    {
        proof {
            assert(s@.skip(i as int).drop_first() =~= s@.skip(i as int + 1));
        }
        i = i + 1;
    }
    proof {
        assert(trim_front(s@) == s@.skip(i as int));
        assert(s@.skip(i as int) =~= s@.subrange(i as int, s@.len() as int));
    }
    let mut j: usize = s.len();
    while j > i && is_space_x(s[j - 1])
        invariant
            0 <= i <= j <= s@.len(),
            trim_front(s@) == s@.skip(i as int),
            trim_back(s@.skip(i as int)) == trim_back(s@.subrange(i as int, j as int)),
        decreases j,
    {
        proof {
            assert(s@.subrange(i as int, j as int).drop_last() =~= s@.subrange(
                i as int,
                j as int - 1,
            ));
        }
        j = j - 1;
    }
    proof {
        assert(s@.skip(i as int) =~= s@.subrange(i as int, s@.len() as int));
        assert(trim_back(s@.subrange(i as int, j as int)) == s@.subrange(i as int, j as int));
    }
    &s[i..j]
}

/// A UTF-8 continuation byte.
pub open spec fn utf8_tail(b: u8) -> bool {
    0x80 <= b && b <= 0xBF
}

/// Whether `s` is well-formed UTF-8: the byte-sequence grammar of RFC 3629,
/// which excludes overlong forms, surrogates, and code points past
/// `U+10FFFF` — exactly the sequences a UTF-8 decoder accepts.
pub open spec fn valid_utf8(s: Seq<u8>) -> bool
    decreases s.len(),
{
    if s.len() == 0 {
        true
    } else {
        let b0 = s[0];
        if b0 <= 0x7F {
            valid_utf8(s.skip(1))
        } else if 0xC2 <= b0 && b0 <= 0xDF {
            s.len() >= 2 && utf8_tail(s[1]) && valid_utf8(s.skip(2))
        } else if b0 == 0xE0 {
            s.len() >= 3 && 0xA0 <= s[1] && s[1] <= 0xBF && utf8_tail(s[2]) && valid_utf8(
                s.skip(3),
            )
        } else if (0xE1 <= b0 && b0 <= 0xEC) || b0 == 0xEE || b0 == 0xEF {
            s.len() >= 3 && utf8_tail(s[1]) && utf8_tail(s[2]) && valid_utf8(s.skip(3))
        } else if b0 == 0xED {
            s.len() >= 3 && 0x80 <= s[1] && s[1] <= 0x9F && utf8_tail(s[2]) && valid_utf8(
                s.skip(3),
            )
        } else if b0 == 0xF0 {
            s.len() >= 4 && 0x90 <= s[1] && s[1] <= 0xBF && utf8_tail(s[2]) && utf8_tail(s[3])
                && valid_utf8(s.skip(4))
        } else if 0xF1 <= b0 && b0 <= 0xF3 {
            s.len() >= 4 && utf8_tail(s[1]) && utf8_tail(s[2]) && utf8_tail(s[3]) && valid_utf8(
                s.skip(4),
            )
        } else if b0 == 0xF4 {
            s.len() >= 4 && 0x80 <= s[1] && s[1] <= 0x8F && utf8_tail(s[2]) && utf8_tail(s[3])
                && valid_utf8(s.skip(4))
        } else {
            false
        }
    }
}

/// Checks that `s` is well-formed UTF-8.
pub fn is_valid_utf8(s: &[u8]) -> (r: bool)
    ensures
        r == valid_utf8(s@),
{
    let mut i: usize = 0;
    assert(s@.skip(0) =~= s@);
    while i < s.len()
        invariant
            0 <= i <= s@.len(),
            valid_utf8(s@) == valid_utf8(s@.skip(i as int)),
        decreases s@.len() - i,
    {
        let ghost t = s@.skip(i as int);
        proof {
            assert(t[0] == s@[i as int]);
        }
        let b0 = s[i];
        let remaining = s.len() - i;
        if b0 <= 0x7F {
            proof {
                assert(t.skip(1) =~= s@.skip(i as int + 1));
            }
            i = i + 1;
        } else if 0xC2 <= b0 && b0 <= 0xDF {
            if remaining < 2 || !(0x80 <= s[i + 1] && s[i + 1] <= 0xBF) {
                return false;
            }
            proof {
                assert(t[1] == s@[i as int + 1]);
                assert(t.skip(2) =~= s@.skip(i as int + 2));
            }
            i = i + 2;
        } else if b0 == 0xE0 || (0xE1 <= b0 && b0 <= 0xEC) || b0 == 0xED || b0 == 0xEE || b0
            == 0xEF {
            let lo: u8 = if b0 == 0xE0 {
                0xA0
            } else {
                0x80
            };
            let hi: u8 = if b0 == 0xED {
                0x9F
            } else {
                0xBF
            };
            if remaining < 3 || !(lo <= s[i + 1] && s[i + 1] <= hi) || !(0x80 <= s[i + 2] && s[i
                + 2] <= 0xBF) {
                return false;
            }
            proof {
                assert(t[1] == s@[i as int + 1]);
                assert(t[2] == s@[i as int + 2]);
                assert(t.skip(3) =~= s@.skip(i as int + 3));
            }
            i = i + 3;
        } else if 0xF0 <= b0 && b0 <= 0xF4 {
            let lo: u8 = if b0 == 0xF0 {
                0x90
            } else {
                0x80
            };
            let hi: u8 = if b0 == 0xF4 {
                0x8F
            } else {
                0xBF
            };
            if remaining < 4 || !(lo <= s[i + 1] && s[i + 1] <= hi) || !(0x80 <= s[i + 2] && s[i
                + 2] <= 0xBF) || !(0x80 <= s[i + 3] && s[i + 3] <= 0xBF) {
                return false;
            }
            proof {
                assert(t[1] == s@[i as int + 1]);
                assert(t[2] == s@[i as int + 2]);
                assert(t[3] == s@[i as int + 3]);
                assert(t.skip(4) =~= s@.skip(i as int + 4));
            }
            i = i + 4;
        } else {
            return false;
        }
    }
    true
}

/// The UTF-8 encoding of one character.
pub open spec fn char_utf8(c: char) -> Seq<u8> {
    let u = c as u32;
    if u < 0x80 {
        seq![u as u8]
    } else if u < 0x800 {
        seq![(0xC0 + u / 0x40) as u8, (0x80 + u % 0x40) as u8]
    } else if u < 0x10000 {
        seq![
            (0xE0 + u / 0x1000) as u8,
            (0x80 + (u / 0x40) % 0x40) as u8,
            (0x80 + u % 0x40) as u8,
        ]
    } else {
        seq![
            (0xF0 + u / 0x40000) as u8,
            (0x80 + (u / 0x1000) % 0x40) as u8,
            (0x80 + (u / 0x40) % 0x40) as u8,
            (0x80 + u % 0x40) as u8,
        ]
    }
}

/// Appends the UTF-8 encoding of `c`.
pub fn push_char(w: &mut Vec<u8>, c: char)
    ensures
        final(w)@ == old(w)@ + char_utf8(c),
{
    let u = c as u32;
    if u < 0x80 {
        w.push(u as u8);
    } else if u < 0x800 {
        w.push((0xC0 + u / 0x40) as u8);
        w.push((0x80 + u % 0x40) as u8);
    } else if u < 0x10000 {
        w.push((0xE0 + u / 0x1000) as u8);
        w.push((0x80 + (u / 0x40) % 0x40) as u8);
        w.push((0x80 + u % 0x40) as u8);
    } else {
        w.push((0xF0 + u / 0x40000) as u8);
        w.push((0x80 + (u / 0x1000) % 0x40) as u8);
        w.push((0x80 + (u / 0x40) % 0x40) as u8);
        w.push((0x80 + u % 0x40) as u8);
    }
    assert(w@ =~= old(w)@ + char_utf8(c));
}

/// The pieces of `s` between occurrences of `sep`, in order.  Splitting the
/// empty string gives one empty piece, as splitting text does.
pub open spec fn split_seq(s: Seq<u8>, sep: u8) -> Seq<Seq<u8>>
    decreases s.len(),
{
    if s.len() == 0 {
        seq![Seq::<u8>::empty()]
    } else if s[0] == sep {
        seq![Seq::<u8>::empty()] + split_seq(s.drop_first(), sep)
    } else {
        let r = split_seq(s.drop_first(), sep);
        seq![seq![s[0]] + r[0]] + r.drop_first()
    }
}

pub proof fn lemma_split_nonempty(s: Seq<u8>, sep: u8)
    ensures
        split_seq(s, sep).len() >= 1,
    decreases s.len(),
{
    if s.len() > 0 {
        lemma_split_nonempty(s.drop_first(), sep);
    }
}

/// Splits `s` on `sep`.
pub fn split_bytes(s: &[u8], sep: u8) -> (r: Vec<Vec<u8>>)
    ensures
        r.deep_view() == split_seq(s@, sep),
{
    let mut toks: Vec<Vec<u8>> = Vec::new();
    toks.push(Vec::new());
    assert(toks.deep_view() =~~= split_seq(s@.skip(s@.len() as int), sep));
    let mut k: usize = s.len();
    while k > 0
        invariant
            0 <= k <= s@.len(),
            toks.len() >= 1,
            toks.deep_view() == split_seq(s@.skip(k as int), sep),
        decreases k,
    {
        k = k - 1;
        proof {
            assert(s@.skip(k as int).drop_first() =~= s@.skip(k as int + 1));
            lemma_split_nonempty(s@.skip(k as int + 1), sep);
        }
        if s[k] == sep {
            toks.insert(0, Vec::new());
            assert(toks.deep_view() =~~= split_seq(s@.skip(k as int), sep));
        } else {
            let mut first = toks.remove(0);
            first.insert(0, s[k]);
            toks.insert(0, first);
            assert(toks.deep_view() =~~= split_seq(s@.skip(k as int), sep));
        }
    }
    proof {
        assert(s@.skip(0) =~= s@);
    }
    toks
}

} // verus!
