//! Byte-level text: decimal numbers, ASCII case folding, prefixes and UTF-8.

use vstd::prelude::*;
use vstd::utf8::valid_utf8;

verus! {

pub open spec fn is_ascii_digit(b: u8) -> bool {
    48 <= b <= 57
}

pub open spec fn all_digits(s: Seq<u8>) -> bool {
    forall|i: int| 0 <= i < s.len() ==> is_ascii_digit(#[trigger] s[i])
}

/// The number that a string of decimal digits denotes.
pub open spec fn digits_value(s: Seq<u8>) -> nat
    decreases s.len(),
{
    if s.len() == 0 {
        0
    } else {
        digits_value(s.drop_last()) * 10 + (s.last() - 48) as nat
    }
}

/// The digits of an unsigned number written with an optional leading `+`.
pub open spec fn unsigned_digits(s: Seq<u8>) -> Seq<u8> {
    if s.len() > 0 && s[0] == 43 {
        s.drop_first()
    } else {
        s
    }
}

/// A `u32` in decimal: an optional `+`, then one or more digits whose
/// value fits in 32 bits (leading zeros allowed).
pub open spec fn spec_parse_u32(s: Seq<u8>) -> Option<u32> {
    let d = unsigned_digits(s);
    if d.len() > 0 && all_digits(d) && digits_value(d) <= u32::MAX {
        Some(digits_value(d) as u32)
    } else {
        None
    }
}

/// The shortest decimal representation of `n`.
pub open spec fn decimal(n: nat) -> Seq<u8>
    decreases n,
{
    if n < 10 {
        seq![(48 + n) as u8]
    } else {
        decimal(n / 10).push((48 + n % 10) as u8)
    }
}

/// The fields of `s` between dots; a text without dots is one field.
pub open spec fn split_dots(s: Seq<u8>) -> Seq<Seq<u8>>
    decreases s.len(),
{
    if s.len() == 0 {
        seq![Seq::<u8>::empty()]
    } else {
        let prev = split_dots(s.drop_last());
        if s.last() == 46 {
            prev.push(Seq::<u8>::empty())
        } else {
            prev.drop_last().push(prev.last().push(s.last()))
        }
    }
}

/// Splitting at dots always yields at least one field.
pub proof fn lemma_split_nonempty(s: Seq<u8>)
    ensures
        split_dots(s).len() > 0,
    decreases s.len(),
{
    if s.len() > 0 {
        lemma_split_nonempty(s.drop_last());
    }
}

/// Appending text without dots extends the last field.
pub proof fn lemma_split_append_plain(p: Seq<u8>, t: Seq<u8>)
    requires
        forall|i: int| 0 <= i < t.len() ==> #[trigger] t[i] != 46,
    ensures
        split_dots(p + t) == split_dots(p).drop_last().push(split_dots(p).last() + t),
    decreases t.len(),
{
    lemma_split_nonempty(p);
    if t.len() == 0 {
        assert(p + t =~= p);
        assert(split_dots(p).last() + t =~= split_dots(p).last());
        assert(split_dots(p).drop_last().push(split_dots(p).last()) =~= split_dots(p));
    } else {
        let u = t.drop_last();
        assert forall|i: int| 0 <= i < u.len() implies #[trigger] u[i] != 46 by {
            assert(u[i] == t[i]);
        }
        lemma_split_append_plain(p, u);
        assert((p + t).drop_last() =~= p + u);
        assert((p + t).last() == t.last());
        assert(t.last() == t[t.len() - 1]);
        let prev = split_dots(p + u);
        assert(prev.drop_last() =~= split_dots(p).drop_last());
        assert(prev.last().push(t.last()) =~= split_dots(p).last() + t);
    }
}

/// A dot closes the last field and opens an empty one.
pub proof fn lemma_split_dot(p: Seq<u8>)
    ensures
        split_dots(p + seq![46u8]) == split_dots(p).push(Seq::<u8>::empty()),
{
    assert((p + seq![46u8]).drop_last() =~= p);
    assert((p + seq![46u8]).len() > 0);
}

/// The contents of each field.
pub open spec fn field_views(fields: Seq<Vec<u8>>) -> Seq<Seq<u8>> {
    Seq::new(fields.len(), |i: int| fields[i]@)
}

/// Splits `s` at every dot.
pub fn split_at_dots(s: &[u8]) -> (r: Vec<Vec<u8>>)
    ensures
        field_views(r@) == split_dots(s@),
{
    let mut done: Vec<Vec<u8>> = Vec::new();
    let mut current: Vec<u8> = Vec::new();
    let mut k: usize = 0;
    assert(s@.take(0) =~= Seq::<u8>::empty());
    assert(field_views(done@).push(current@) =~= seq![Seq::<u8>::empty()]);
    while k < s.len()
        invariant
            k <= s@.len(),
            split_dots(s@.take(k as int)) == field_views(done@).push(current@),
        decreases s.len() - k,
    {
        let b = s[k];
        let ghost before = field_views(done@);
        let ghost old_current = current@;
        assert(s@.take(k + 1).drop_last() =~= s@.take(k as int));
        assert(s@.take(k + 1).last() == b);
        if b == 46 {
            done.push(current);
            current = Vec::new();
            assert(field_views(done@) =~= before.push(old_current));
        } else {
            current.push(b);
            assert(field_views(done@) =~= before);
            assert(before.push(old_current).drop_last() =~= before);
        }
        k = k + 1;
    }
    assert(s@.take(k as int) =~= s@);
    let ghost before = field_views(done@);
    done.push(current);
    assert(field_views(done@) =~= before.push(current@));
    done
}

pub open spec fn ascii_lower(b: u8) -> u8 {
    if 65 <= b <= 90 {
        (b + 32) as u8
    } else {
        b
    }
}

/// Equality of two byte strings when ASCII letters are compared without case.
pub open spec fn eq_ignore_ascii_case(a: Seq<u8>, b: Seq<u8>) -> bool {
    &&& a.len() == b.len()
    &&& forall|i: int| 0 <= i < a.len() ==> ascii_lower(#[trigger] a[i]) == ascii_lower(b[i])
}

pub open spec fn has_prefix(s: Seq<u8>, prefix: Seq<u8>) -> bool {
    prefix.len() <= s.len() && s.take(prefix.len() as int) == prefix
}

/// The shortest decimal text of `n` is one or more digits that denote `n`.
pub proof fn lemma_decimal_digits(n: nat)
    ensures
        decimal(n).len() > 0,
        all_digits(decimal(n)),
        digits_value(decimal(n)) == n,
    decreases n,
{
    if n < 10 {
        assert(decimal(n).drop_last() =~= Seq::<u8>::empty());
        assert(digits_value(Seq::<u8>::empty()) == 0);
        assert(decimal(n).last() == (48 + n) as u8);
    } else {
        lemma_decimal_digits(n / 10);
        assert(decimal(n).drop_last() =~= decimal(n / 10));
        assert(decimal(n).last() == (48 + n % 10) as u8);
        assert(n == (n / 10) * 10 + n % 10) by (nonlinear_arith);
        assert(digits_value(decimal(n)) == digits_value(decimal(n / 10)) * 10 + n % 10);
        assert(all_digits(decimal(n))) by {
            assert forall|i: int| 0 <= i < decimal(n).len() implies is_ascii_digit(
                #[trigger] decimal(n)[i],
            ) by {
                if i < decimal(n / 10).len() {
                    assert(decimal(n)[i] == decimal(n / 10)[i]);
                }
            }
        }
    }
}

/// A `u32` written in decimal reads back as itself.
pub proof fn lemma_parse_decimal(n: u32)
    ensures
        spec_parse_u32(decimal(n as nat)) == Some(n),
{
    lemma_decimal_digits(n as nat);
    assert(is_ascii_digit(decimal(n as nat)[0]));
}

/// A prefix of a digit string never denotes more than the whole string.
pub proof fn lemma_prefix_value_le(s: Seq<u8>, k: int)
    requires
        0 <= k <= s.len(),
        all_digits(s),
    ensures
        digits_value(s.take(k)) <= digits_value(s),
    decreases s.len(),
{
    if k == s.len() {
        assert(s.take(k) =~= s);
    } else {
        assert(s.drop_last().take(k) =~= s.take(k));
        assert(all_digits(s.drop_last()));
        lemma_prefix_value_le(s.drop_last(), k);
    }
}

/// Parses a `u32` written in decimal, as `str::parse::<u32>` does.
pub fn parse_u32(s: &[u8]) -> (r: Option<u32>)
    ensures
        r == spec_parse_u32(s@),
{
    let start: usize = if s.len() > 0 && s[0] == 43 { 1 } else { 0 };
    let ghost d = unsigned_digits(s@);
    assert(d =~= s@.subrange(start as int, s@.len() as int));
    if start == s.len() {
        return None;
    }
    let mut acc: u64 = 0;
    let mut i: usize = start;
    while i < s.len()
        invariant
            start <= i <= s.len(),
            start < s.len(),
            d == unsigned_digits(s@),
            d =~= s@.subrange(start as int, s@.len() as int),
            acc == digits_value(d.take(i - start)),
            acc <= u32::MAX,
            all_digits(d.take(i - start)),
        decreases s.len() - i,
    {
        let b = s[i];
        assert(d[i - start] == b);
        if b < 48 || b > 57 {
            assert(!all_digits(d));
            return None;
        }
        assert(d.take(i - start + 1).drop_last() =~= d.take(i - start));
        let v: u64 = acc * 10 + (b - 48) as u64;
        assert(all_digits(d.take(i - start + 1)));
        if v > 0xffff_ffff {
            proof {
                if all_digits(d) {
                    lemma_prefix_value_le(d, i - start + 1);
                }
            }
            return None;
        }
        acc = v;
        i = i + 1;
    }
    assert(d.take(i - start) =~= d);
    Some(acc as u32)
}

/// Appends the decimal representation of `n`.
pub fn push_decimal(out: &mut Vec<u8>, n: usize)
    ensures
        final(out)@ == old(out)@ + decimal(n as nat),
    decreases n,
{
    if n >= 10 {
        push_decimal(out, n / 10);
    }
    out.push(48 + (n % 10) as u8);
    assert(final(out)@ =~= old(out)@ + decimal(n as nat));
}

/// Compares two byte strings ignoring the case of ASCII letters.
pub fn bytes_eq_ignore_ascii_case(a: &[u8], b: &[u8]) -> (r: bool)
    ensures
        r == eq_ignore_ascii_case(a@, b@),
{
    if a.len() != b.len() {
        return false;
    }
    let mut i: usize = 0;
    while i < a.len()
        invariant
            a@.len() == b@.len(),
            0 <= i <= a@.len(),
            forall|k: int| 0 <= k < i ==> ascii_lower(#[trigger] a@[k]) == ascii_lower(b@[k]),
        decreases a.len() - i,
    {
        let x = a[i];
        let y = b[i];
        let lx: u8 = if 65 <= x && x <= 90 { x + 32 } else { x };
        let ly: u8 = if 65 <= y && y <= 90 { y + 32 } else { y };
        if lx != ly {
            return false;
        }
        i = i + 1;
    }
    true
}

/// Whether `s` begins with `prefix`.
pub fn bytes_have_prefix(s: &[u8], prefix: &[u8]) -> (r: bool)
    ensures
        r == has_prefix(s@, prefix@),
{
    if prefix.len() > s.len() {
        return false;
    }
    let mut i: usize = 0;
    while i < prefix.len()
        invariant
            prefix@.len() <= s@.len(),
            0 <= i <= prefix@.len(),
            forall|k: int| 0 <= k < i ==> #[trigger] s@[k] == prefix@[k],
        decreases prefix.len() - i,
    {
        if s[i] != prefix[i] {
            assert(s@.take(prefix@.len() as int)[i as int] != prefix@[i as int]);
            return false;
        }
        i = i + 1;
    }
    assert(s@.take(prefix@.len() as int) =~= prefix@);
    true
}

/// Whether `bytes` is well-formed UTF-8.
///
/// Calls `core::str::from_utf8`; its contract claims that the standard
/// library accepts exactly the byte strings that `vstd`'s `valid_utf8`
/// describes.
#[verifier::external_body]
pub(crate) fn is_utf8(bytes: &[u8]) -> (r: bool)
    ensures
        r == valid_utf8(bytes@),
{
    core::str::from_utf8(bytes).is_ok()
}

} // verus!
