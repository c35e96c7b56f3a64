//! Byte-level primitives of the wire codec: literal matching, quoted text
//! values, canonical decimal numbers, and their printing counterparts.
//!
//! Each executable parser has a spec mirror over `Seq<u8>` and an exact
//! contract tying the two together; the soundness lemmas state that whatever
//! a primitive accepts is exactly the printed form of the value it returns.

use vstd::prelude::*;
use vstd::arithmetic::div_mod::lemma_fundamental_div_mod;
use vstd::arithmetic::div_mod::lemma_fundamental_div_mod_converse;
use vstd::arithmetic::mul::lemma_mul_inequality;

verus! {

/// The double quote that delimits a text value.
pub const QUOTE: u8 = 0x22;

/// A byte that may stand inside a text value of the wire form:
/// printable ASCII, excluding the quote and the backslash.
pub open spec fn text_byte_ok(b: u8) -> bool {
    0x20 <= b <= 0x7e && b != 0x22 && b != 0x5c
}

/// Every byte of `s` may stand inside a text value.
pub open spec fn text_ok(s: Seq<u8>) -> bool {
    forall|i: int| 0 <= i < s.len() ==> text_byte_ok(#[trigger] s[i])
}

/// An ASCII decimal digit.
pub open spec fn is_digit(b: u8) -> bool {
    0x30 <= b <= 0x39
}

/// Numeric value of a digit byte.
pub open spec fn digit_val(b: u8) -> nat
    recommends
        is_digit(b),
{
    (b - 0x30) as nat
}

/// Whether `b` may stand inside a text value, decided in executable code.
pub fn is_text_byte(b: u8) -> (r: bool)
    ensures
        r == text_byte_ok(b),
{
    0x20 <= b && b <= 0x7e && b != 0x22 && b != 0x5c
}

// ---------------------------------------------------------------------------
// Literal matching
// ---------------------------------------------------------------------------

/// Position after `pat` if `pat` stands at `i` in `s`.
pub open spec fn spec_lit(s: Seq<u8>, i: int, pat: Seq<u8>) -> Option<int> {
    if 0 <= i && i + pat.len() <= s.len() && s.subrange(i, i + pat.len() as int) == pat {
        Some(i + pat.len() as int)
    } else {
        None
    }
}

/// Matches the literal `pat` at position `i` of `s`.
pub fn match_lit(s: &Vec<u8>, i: usize, pat: &Vec<u8>) -> (r: Option<usize>)
    requires
        i <= s@.len(),
    ensures
        r is Some <==> spec_lit(s@, i as int, pat@) is Some,
        r matches Some(j) ==> spec_lit(s@, i as int, pat@) == Some(j as int) && j <= s@.len(),
{
    if s.len() - i < pat.len() {
        return None;
    }
    let mut k: usize = 0;
    while k < pat.len()
        invariant
            0 <= k <= pat.len(),
            i + pat.len() <= s@.len(),
            s@.len() <= usize::MAX,
            s@.subrange(i as int, i + k as int) == pat@.subrange(0, k as int),
        decreases pat.len() - k,
    {
        if s[i + k] != pat[k] {
            proof {
                let whole = s@.subrange(i as int, i + pat@.len() as int);
                assert(whole[k as int] == s@[i + k]);
                assert(whole[k as int] != pat@[k as int]);
            }
            return None;
        }
        proof {
            assert(s@.subrange(i as int, i + (k + 1) as int) =~= s@.subrange(
                i as int,
                i + k as int,
            ).push(s@[i + k]));
            assert(pat@.subrange(0, (k + 1) as int) =~= pat@.subrange(0, k as int).push(
                pat@[k as int],
            ));
        }
        k = k + 1;
    }
    proof {
        assert(s@.subrange(i as int, i + pat@.len() as int) =~= pat@.subrange(
            0,
            pat@.len() as int,
        ));
        assert(pat@.subrange(0, pat@.len() as int) =~= pat@);
    }
    Some(i + pat.len())
}

// ---------------------------------------------------------------------------
// Quoted text values
// ---------------------------------------------------------------------------

/// Index of the closing quote at or after `i`, if every byte before it is an
/// acceptable text byte.
pub open spec fn scan_text(s: Seq<u8>, i: int) -> Option<int>
    decreases s.len() - i,
{
    if !(0 <= i < s.len()) {
        None
    } else if s[i] == QUOTE {
        Some(i)
    } else if text_byte_ok(s[i]) {
        scan_text(s, i + 1)
    } else {
        None
    }
}

/// A quoted text value at `i`: the bytes between the quotes, and the position
/// after the closing quote.
pub open spec fn spec_text(s: Seq<u8>, i: int) -> Option<(Seq<u8>, int)> {
    if 0 <= i < s.len() && s[i] == QUOTE {
        match scan_text(s, i + 1) {
            Some(j) => Some((s.subrange(i + 1, j), j + 1)),
            None => None,
        }
    } else {
        None
    }
}

/// What `scan_text` finding a closing quote says of the bytes before it.
pub proof fn lemma_scan_text_props(s: Seq<u8>, i: int, j: int)
    requires
        scan_text(s, i) == Some(j),
    ensures
        i <= j < s.len(),
        s[j] == QUOTE,
        forall|k: int| i <= k < j ==> text_byte_ok(#[trigger] s[k]),
    decreases s.len() - i,
{
    if 0 <= i < s.len() && s[i] != QUOTE && text_byte_ok(s[i]) {
        lemma_scan_text_props(s, i + 1, j);
    }
}

/// Parses a quoted text value at position `i` of `s`.
pub fn parse_text(s: &Vec<u8>, i: usize) -> (r: Option<(Vec<u8>, usize)>)
    requires
        i <= s@.len(),
    ensures
        r is Some <==> spec_text(s@, i as int) is Some,
        r matches Some(p) ==> spec_text(s@, i as int) == Some((p.0@, p.1 as int)) && p.1
            <= s@.len(),
{
    if i >= s.len() || s[i] != QUOTE {
        return None;
    }
    let mut j: usize = i + 1;
    let mut out: Vec<u8> = Vec::new();
    while j < s.len()
        invariant
            i + 1 <= j <= s@.len(),
            i < s@.len(),
            s@[i as int] == QUOTE,
            out@ == s@.subrange(i + 1 as int, j as int),
            scan_text(s@, i + 1 as int) == scan_text(s@, j as int),
        decreases s@.len() - j,
    {
        let b = s[j];
        if b == QUOTE {
            proof {
                assert(scan_text(s@, j as int) == Some(j as int));
            }
            return Some((out, j + 1));
        }
        if !is_text_byte(b) {
            proof {
                assert(scan_text(s@, j as int) is None);
            }
            return None;
        }
        out.push(b);
        proof {
            assert(s@.subrange(i + 1 as int, (j + 1) as int) =~= s@.subrange(
                i + 1 as int,
                j as int,
            ).push(s@[j as int]));
            assert(scan_text(s@, j as int) == scan_text(s@, (j + 1) as int));
        }
        j = j + 1;
    }
    proof {
        assert(scan_text(s@, j as int) is None);
    }
    None
}

/// Whatever `spec_text` accepts is exactly the quoted form of the value it
/// returns.
pub proof fn lemma_spec_text_sound(s: Seq<u8>, i: int)
    requires
        spec_text(s, i) is Some,
    ensures
        ({
            let (v, j) = spec_text(s, i)->Some_0;
            &&& i + 2 + v.len() == j <= s.len()
            &&& text_ok(v)
            &&& s.subrange(i, j) == seq![QUOTE] + v + seq![QUOTE]
        }),
{
    let (v, j) = spec_text(s, i)->Some_0;
    let e = scan_text(s, i + 1)->Some_0;
    lemma_scan_text_props(s, i + 1, e);
    assert(v == s.subrange(i + 1, e));
    assert(s.subrange(i, j) =~= seq![QUOTE] + v + seq![QUOTE]);
}

// ---------------------------------------------------------------------------
// Canonical decimal numbers
// ---------------------------------------------------------------------------

/// Value of a run of decimal digit bytes.
pub open spec fn dec_value(d: Seq<u8>) -> nat
    decreases d.len(),
{
    if d.len() == 0 {
        0
    } else {
        dec_value(d.drop_last()) * 10 + digit_val(d.last())
    }
}

/// End of the run of digit bytes starting at `i`.
pub open spec fn digit_end(s: Seq<u8>, i: int) -> int
    decreases s.len() - i,
{
    if !(0 <= i < s.len()) {
        i
    } else if is_digit(s[i]) {
        digit_end(s, i + 1)
    } else {
        i
    }
}

/// A digit run in the canonical form the codec accepts and prints: nonempty,
/// no leading zero unless the value is zero itself, and within `u64` range.
pub open spec fn canonical_digits(d: Seq<u8>) -> bool {
    &&& d.len() >= 1
    &&& forall|k: int| 0 <= k < d.len() ==> is_digit(#[trigger] d[k])
    &&& (d.len() > 1 ==> d[0] != 0x30)
    &&& dec_value(d) <= u64::MAX
}

/// A canonical decimal number at `i`: its value and the position after its
/// digits.
pub open spec fn spec_u64(s: Seq<u8>, i: int) -> Option<(u64, int)> {
    if 0 <= i <= s.len() {
        let e = digit_end(s, i);
        let d = s.subrange(i, e);
        if canonical_digits(d) {
            Some((dec_value(d) as u64, e))
        } else {
            None
        }
    } else {
        None
    }
}

/// The digit run ends within the sequence, at or after where it starts.
pub proof fn lemma_digit_end_bounds(s: Seq<u8>, i: int)
    requires
        0 <= i <= s.len(),
    ensures
        i <= digit_end(s, i) <= s.len(),
        forall|k: int| i <= k < digit_end(s, i) ==> is_digit(#[trigger] s[k]),
        digit_end(s, i) < s.len() ==> !is_digit(s[digit_end(s, i)]),
    decreases s.len() - i,
{
    if i < s.len() && is_digit(s[i]) {
        lemma_digit_end_bounds(s, i + 1);
    }
}

/// The value of a prefix of a digit run never exceeds the value of the run.
pub proof fn lemma_dec_value_prefix(d: Seq<u8>, k: int)
    requires
        0 <= k <= d.len(),
    ensures
        dec_value(d.subrange(0, k)) <= dec_value(d),
    decreases d.len(),
{
    if k == d.len() {
        assert(d.subrange(0, k) =~= d);
    } else {
        assert(d.subrange(0, k) =~= d.drop_last().subrange(0, k));
        lemma_dec_value_prefix(d.drop_last(), k);
        assert(dec_value(d.drop_last()) * 10 >= dec_value(d.drop_last()) * 1) by {
            lemma_mul_inequality(1, 10, dec_value(d.drop_last()) as int);
        }
    }
}

/// A nonempty digit run without a leading zero has value at least one.
pub proof fn lemma_dec_value_lower(d: Seq<u8>)
    requires
        d.len() >= 1,
        forall|k: int| 0 <= k < d.len() ==> is_digit(#[trigger] d[k]),
        d[0] != 0x30,
    ensures
        dec_value(d) >= 1,
    decreases d.len(),
{
    if d.len() == 1 {
    } else {
        lemma_dec_value_lower(d.drop_last());
    }
}

/// Parses a canonical decimal `u64` at position `i` of `s`.
pub fn parse_u64(s: &Vec<u8>, i: usize) -> (r: Option<(u64, usize)>)
    requires
        i <= s@.len(),
    ensures
        r is Some <==> spec_u64(s@, i as int) is Some,
        r matches Some(p) ==> spec_u64(s@, i as int) == Some((p.0, p.1 as int)) && p.1 <= s@.len(),
{
    proof {
        lemma_digit_end_bounds(s@, i as int);
    }
    let ghost e = digit_end(s@, i as int);
    let ghost d = s@.subrange(i as int, e);
    if i >= s.len() || !(0x30 <= s[i] && s[i] <= 0x39) {
        proof {
            assert(e == i as int);
            assert(d.len() == 0);
        }
        return None;
    }
    if s[i] == 0x30 {
        // A leading zero is canonical only as the single digit of zero itself.
        if i + 1 < s.len() && 0x30 <= s[i + 1] && s[i + 1] <= 0x39 {
            proof {
                lemma_digit_end_bounds(s@, i + 2 as int);
                assert(e == digit_end(s@, i + 2 as int));
                assert(d.len() > 1);
                assert(d[0] == 0x30);
            }
            return None;
        }
        proof {
            assert(e == i + 1 as int);
            assert(d =~= seq![0x30u8]);
            assert(d.drop_last() =~= Seq::<u8>::empty());
            assert(dec_value(Seq::<u8>::empty()) == 0);
            assert(dec_value(d) == 0);
            assert(canonical_digits(d));
        }
        return Some((0, i + 1));
    }
    let mut j: usize = i + 1;
    let mut acc: u64 = (s[i] - 0x30) as u64;
    proof {
        assert(s@.subrange(i as int, j as int) =~= seq![s@[i as int]]);
        assert(s@.subrange(i as int, j as int).drop_last() =~= Seq::<u8>::empty());
        assert(dec_value(Seq::<u8>::empty()) == 0);
        assert(dec_value(s@.subrange(i as int, j as int)) == digit_val(s@[i as int]));
    }
    loop
        invariant
            i < j <= s@.len(),
            i < s@.len(),
            is_digit(s@[i as int]),
            s@[i as int] != 0x30,
            forall|k: int| i <= k < j ==> is_digit(#[trigger] s@[k]),
            acc == dec_value(s@.subrange(i as int, j as int)),
            e == digit_end(s@, j as int),
            e == digit_end(s@, i as int),
            d == s@.subrange(i as int, e),
            i <= e <= s@.len(),
        decreases s@.len() - j,
    {
        if j >= s.len() || !(0x30 <= s[j] && s[j] <= 0x39) {
            proof {
                assert(e == j as int);
                assert(canonical_digits(d));
            }
            return Some((acc, j));
        }
        let dig: u64 = (s[j] - 0x30) as u64;
        proof {
            lemma_digit_end_bounds(s@, j + 1 as int);
            assert(e == digit_end(s@, j + 1 as int));
            assert(e >= j + 1);
            assert(s@.subrange(i as int, (j + 1) as int).drop_last() =~= s@.subrange(
                i as int,
                j as int,
            ));
            assert(dec_value(s@.subrange(i as int, (j + 1) as int)) == acc * 10 + dig);
        }
        let limit: u64 = (u64::MAX - dig) / 10;
        if acc > limit {
            proof {
                lemma_fundamental_div_mod((u64::MAX - dig) as int, 10);
                assert(acc * 10 >= (limit + 1) * 10) by {
                    lemma_mul_inequality(limit + 1 as int, acc as int, 10);
                }
                assert(acc * 10 + dig > u64::MAX);
                let grown = s@.subrange(i as int, (j + 1) as int);
                assert(grown =~= d.subrange(0, j + 1 - i));
                lemma_dec_value_prefix(d, j + 1 - i);
                assert(dec_value(d) > u64::MAX);
            }
            return None;
        }
        proof {
            lemma_fundamental_div_mod((u64::MAX - dig) as int, 10);
            assert(acc * 10 <= limit * 10) by {
                lemma_mul_inequality(acc as int, limit as int, 10);
            }
            assert(acc * 10 + dig <= u64::MAX);
        }
        acc = acc * 10 + dig;
        j = j + 1;
    }
}

/// Canonical decimal digits of `n`, most significant first.
pub open spec fn dec_digits(n: nat) -> Seq<u8>
    decreases n,
{
    if n < 10 {
        seq![(0x30 + n) as u8]
    } else {
        dec_digits(n / 10) + seq![(0x30 + n % 10) as u8]
    }
}

/// Printing a digit run's value gives back exactly that run.
pub proof fn lemma_dec_digits_of_value(d: Seq<u8>)
    requires
        d.len() >= 1,
        forall|k: int| 0 <= k < d.len() ==> is_digit(#[trigger] d[k]),
        d.len() > 1 ==> d[0] != 0x30,
    ensures
        dec_digits(dec_value(d)) == d,
    decreases d.len(),
{
    if d.len() == 1 {
        assert(d.drop_last() =~= Seq::<u8>::empty());
        assert(dec_value(Seq::<u8>::empty()) == 0);
        assert(dec_value(d) == digit_val(d[0]));
        assert(dec_digits(dec_value(d)) =~= d);
    } else {
        let head = d.drop_last();
        let v = dec_value(d);
        lemma_dec_value_lower(head);
        assert(dec_value(head) * 10 >= 1 * 10) by {
            lemma_mul_inequality(1, dec_value(head) as int, 10);
        }
        assert(v >= 10);
        lemma_fundamental_div_mod_converse(
            v as int,
            10,
            dec_value(head) as int,
            digit_val(d.last()) as int,
        );
        assert(v / 10 == dec_value(head));
        assert(v % 10 == digit_val(d.last()));
        lemma_dec_digits_of_value(head);
        assert(dec_digits(v) =~= d);
    }
}

/// Prints `n` in canonical decimal onto the end of `out`.
pub fn push_u64(out: &mut Vec<u8>, n: u64)
    ensures
        final(out)@ == old(out)@ + dec_digits(n as nat),
    decreases n,
{
    if n < 10 {
        out.push(0x30 + n as u8);
        proof {
            assert(final(out)@ =~= old(out)@ + dec_digits(n as nat));
        }
    } else {
        push_u64(out, n / 10);
        out.push(0x30 + (n % 10) as u8);
        proof {
            assert(final(out)@ =~= old(out)@ + dec_digits(n as nat));
        }
    }
}

// ---------------------------------------------------------------------------
// Byte output
// ---------------------------------------------------------------------------

/// Appends all of `src` onto the end of `out`.
pub fn push_bytes(out: &mut Vec<u8>, src: &Vec<u8>)
    ensures
        final(out)@ == old(out)@ + src@,
{
    let mut k: usize = 0;
    while k < src.len()
        invariant
            0 <= k <= src@.len(),
            out@ == old(out)@ + src@.subrange(0, k as int),
        decreases src@.len() - k,
    {
        out.push(src[k]);
        proof {
            assert(old(out)@ + src@.subrange(0, (k + 1) as int) =~= (old(out)@ + src@.subrange(
                0,
                k as int,
            )).push(src@[k as int]));
        }
        k = k + 1;
    }
    proof {
        assert(src@.subrange(0, src@.len() as int) =~= src@);
    }
}

} // verus!
