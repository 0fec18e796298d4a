//! Firmware version numbers: `major.minor.patch`, optionally after a `v`.

use vstd::prelude::*;

use crate::text::{
    decimal, field_views, lemma_decimal_digits, lemma_parse_decimal, lemma_split_append_plain,
    lemma_split_dot, parse_u32, spec_parse_u32, split_at_dots, split_dots,
};
use vstd::slice::slice_subrange;

verus! {

/// A version as its three numbers.
pub type VersionTriple = (u32, u32, u32);

/// The text with one leading `v` removed, if it has one.
pub open spec fn strip_v(s: Seq<u8>) -> Seq<u8> {
    if s.len() > 0 && s[0] == 118 {
        s.drop_first()
    } else {
        s
    }
}

/// The version that a text names: after an optional `v`, exactly three
/// dot-separated `u32` numbers.
pub open spec fn spec_version(s: Seq<u8>) -> Option<VersionTriple> {
    let fields = split_dots(strip_v(s));
    if fields.len() == 3 && spec_parse_u32(fields[0]) is Some && spec_parse_u32(fields[1]) is Some
        && spec_parse_u32(fields[2]) is Some {
        Some(
            (
                spec_parse_u32(fields[0])->0,
                spec_parse_u32(fields[1])->0,
                spec_parse_u32(fields[2])->0,
            ),
        )
    } else {
        None
    }
}

/// `a.b.c`, each number in its shortest decimal form.
pub open spec fn version_text(v: VersionTriple) -> Seq<u8> {
    decimal(v.0 as nat) + seq![46u8] + decimal(v.1 as nat) + seq![46u8] + decimal(v.2 as nat)
}

/// The digits of a decimal number hold no dot.
proof fn lemma_decimal_plain(n: nat)
    ensures
        forall|i: int| 0 <= i < decimal(n).len() ==> #[trigger] decimal(n)[i] != 46,
        decimal(n)[0] != 118,
{
    lemma_decimal_digits(n);
}

/// Writing a version as `a.b.c`, with or without a leading `v`, and
/// reading it back gives the same version.
pub proof fn lemma_version_round_trip(v: VersionTriple)
    ensures
        spec_version(version_text(v)) == Some(v),
        spec_version(seq![118u8] + version_text(v)) == Some(v),
{
    let da = decimal(v.0 as nat);
    let db = decimal(v.1 as nat);
    let dc = decimal(v.2 as nat);
    lemma_decimal_plain(v.0 as nat);
    lemma_decimal_plain(v.1 as nat);
    lemma_decimal_plain(v.2 as nat);
    lemma_decimal_digits(v.0 as nat);
    let e = Seq::<u8>::empty();
    lemma_split_append_plain(e, da);
    assert(e + da =~= da);
    assert(split_dots(e) =~= seq![e]);
    assert(split_dots(da) =~= seq![da]);
    lemma_split_dot(da);
    let p1 = da + seq![46u8];
    assert(split_dots(p1) =~= seq![da, e]);
    lemma_split_append_plain(p1, db);
    let p2 = p1 + db;
    assert(split_dots(p2) =~= seq![da, db]);
    lemma_split_dot(p2);
    let p3 = p2 + seq![46u8];
    assert(split_dots(p3) =~= seq![da, db, e]);
    lemma_split_append_plain(p3, dc);
    let t = p3 + dc;
    assert(t == version_text(v));
    assert(split_dots(t) =~= seq![da, db, dc]);
    lemma_parse_decimal(v.0);
    lemma_parse_decimal(v.1);
    lemma_parse_decimal(v.2);
    assert(t[0] == da[0]);
    assert(strip_v(t) == t);
    assert((seq![118u8] + t).drop_first() =~= t);
    assert(strip_v(seq![118u8] + t) == t);
}

/// `a` comes after `b`: the numbers compared in order, major first.
pub open spec fn is_newer(a: VersionTriple, b: VersionTriple) -> bool {
    a.0 > b.0 || (a.0 == b.0 && (a.1 > b.1 || (a.1 == b.1 && a.2 > b.2)))
}

/// Reads a version such as `v1.2.3` or `10.0.7`.
pub fn parse_version(value: &[u8]) -> (r: Option<VersionTriple>)
    ensures
        r == spec_version(value@),
{
    let start: usize = if value.len() > 0 && value[0] == 118 { 1 } else { 0 };
    let rest = slice_subrange(value, start, value.len());
    assert(rest@ =~= strip_v(value@));
    let fields = split_at_dots(rest);
    if fields.len() != 3 {
        return None;
    }
    assert(field_views(fields@)[0] == fields@[0]@);
    assert(field_views(fields@)[1] == fields@[1]@);
    assert(field_views(fields@)[2] == fields@[2]@);
    let major = parse_u32(fields[0].as_slice());
    let minor = parse_u32(fields[1].as_slice());
    let patch = parse_u32(fields[2].as_slice());
    match (major, minor, patch) {
        (Some(a), Some(b), Some(c)) => Some((a, b, c)),
        _ => None,
    }
}

/// Whether version `a` comes after version `b`.
pub fn version_is_newer(a: VersionTriple, b: VersionTriple) -> (r: bool)
    ensures
        r == is_newer(a, b),
{
    a.0 > b.0 || (a.0 == b.0 && (a.1 > b.1 || (a.1 == b.1 && a.2 > b.2)))
}

/// No version is newer than itself, so an installed version is never
/// offered again.
pub proof fn lemma_newer_irreflexive(a: VersionTriple)
    ensures
        !is_newer(a, a),
{
}

/// Of two versions, at most one is newer than the other.
pub proof fn lemma_newer_asymmetric(a: VersionTriple, b: VersionTriple)
    ensures
        !(is_newer(a, b) && is_newer(b, a)),
{
}

/// A newer version than a newer version is newer: updates only move forward.
pub proof fn lemma_newer_transitive(a: VersionTriple, b: VersionTriple, c: VersionTriple)
    requires
        is_newer(a, b),
        is_newer(b, c),
    ensures
        is_newer(a, c),
{
}

/// Two different versions are always ordered one way or the other.
pub proof fn lemma_newer_total(a: VersionTriple, b: VersionTriple)
    ensures
        a == b || is_newer(a, b) || is_newer(b, a),
{
}

/// Versions are ordered by their numbers, major first, then minor, then
/// patch: the first number in which two versions differ decides, and the
/// larger number is the newer version.
pub proof fn lemma_newer_by_first_difference(a: VersionTriple, b: VersionTriple)
    ensures
        a.0 > b.0 ==> is_newer(a, b),
        a.0 < b.0 ==> !is_newer(a, b),
        a.0 == b.0 && a.1 > b.1 ==> is_newer(a, b),
        a.0 == b.0 && a.1 < b.1 ==> !is_newer(a, b),
        a.0 == b.0 && a.1 == b.1 && a.2 > b.2 ==> is_newer(a, b),
        a.0 == b.0 && a.1 == b.1 && a.2 <= b.2 ==> !is_newer(a, b),
{
}

} // verus!
