//! References as integers: the directory keeps its entries in a map that is
//! keyed by the twelve bytes of the reference, read as one number, so that the
//! order of the keys is the order of the references byte by byte.
use crate::token::{fits, Reference};
use vstd::prelude::*;
use vstd::string::*;

verus! {

/// The byte at a position of a text that is padded with NUL behind its end.
pub open spec fn padded(s: Seq<char>, i: int) -> int {
    if 0 <= i < s.len() {
        s[i] as int
    } else {
        0
    }
}

/// The number that the first `width` bytes of a padded text write in base 256.
pub open spec fn packed(s: Seq<char>, width: nat) -> int
    decreases width,
{
    if width == 0 {
        0
    } else {
        packed(s, (width - 1) as nat) * 256 + padded(s, width - 1)
    }
}

/// 256 to the power of `width`.
pub open spec fn limit(width: nat) -> int
    decreases width,
{
    if width == 0 {
        1
    } else {
        256 * limit((width - 1) as nat)
    }
}

/// The key of a reference: its twelve bytes, NUL behind the end, as a number.
pub open spec fn key_of(s: Seq<char>) -> u128 {
    packed(s, 12) as u128
}

/// A packed text is below the limit of its width.
pub proof fn packed_is_bounded(s: Seq<char>, width: nat)
    requires
        fits(s, s.len() as int),
    ensures
        0 <= packed(s, width) < limit(width),
    decreases width,
{
    if width > 0 {
        packed_is_bounded(s, (width - 1) as nat);
    }
}

/// Texts with the same packed number have the same bytes up to the width.
pub proof fn packed_tells_bytes(a: Seq<char>, b: Seq<char>, width: nat)
    requires
        fits(a, a.len() as int),
        fits(b, b.len() as int),
        packed(a, width) == packed(b, width),
    ensures
        forall|i: int| 0 <= i < width ==> padded(a, i) == padded(b, i),
    decreases width,
{
    if width > 0 {
        let w = (width - 1) as nat;
        assert(packed(a, w) == packed(b, w) && padded(a, w as int) == padded(b, w as int)) by {
            assert(0 <= padded(a, w as int) < 256);
            assert(0 <= padded(b, w as int) < 256);
        }
        packed_tells_bytes(a, b, w);
    }
}

/// Two references with the same key are the same reference.
pub proof fn key_is_injective(a: Seq<char>, b: Seq<char>)
    requires
        fits(a, 12),
        fits(b, 12),
        key_of(a) == key_of(b),
    ensures
        a == b,
{
    packed_is_bounded(a, 12);
    packed_is_bounded(b, 12);
    assert(limit(12) == 0x1_0000_0000_0000_0000_0000_0000) by {
        reveal_with_fuel(limit, 13);
    }
    packed_tells_bytes(a, b, 12);
    if a.len() < b.len() {
        assert(padded(a, a.len() as int) == padded(b, a.len() as int));
        assert(b[a.len() as int] >= '\u{1}');
    } else if b.len() < a.len() {
        assert(padded(a, b.len() as int) == padded(b, b.len() as int));
        assert(a[b.len() as int] >= '\u{1}');
    } else {
        assert forall|i: int| 0 <= i < a.len() implies a[i] == b[i] by {
            assert(padded(a, i) == padded(b, i));
        }
        assert(a =~= b);
    }
}

/// Whether `a` comes before `b` byte by byte, both padded with NUL: at the
/// first place where they differ, `a` has the smaller byte.
pub open spec fn precedes(a: Seq<char>, b: Seq<char>) -> bool {
    exists|d: int|
        0 <= d && padded(a, d) < padded(b, d) && forall|i: int|
            0 <= i < d ==> padded(a, i) == padded(b, i)
}

/// Where two texts agree up to a place and differ there, the packed numbers
/// are in the order of the bytes at that place.
pub proof fn packed_keeps_order(a: Seq<char>, b: Seq<char>, width: nat, d: int)
    requires
        fits(a, a.len() as int),
        fits(b, b.len() as int),
        0 <= d < width,
        padded(a, d) < padded(b, d),
        forall|i: int| 0 <= i < d ==> padded(a, i) == padded(b, i),
    ensures
        packed(a, width) < packed(b, width),
    decreases width,
{
    let w = (width - 1) as nat;
    assert(0 <= padded(a, w as int) < 256);
    assert(0 <= padded(b, w as int) < 256);
    if d == w {
        packed_agrees(a, b, w);
    } else {
        packed_keeps_order(a, b, w, d);
    }
}

/// Texts with the same bytes up to the width have the same packed number.
pub proof fn packed_agrees(a: Seq<char>, b: Seq<char>, width: nat)
    requires
        forall|i: int| 0 <= i < width ==> padded(a, i) == padded(b, i),
    ensures
        packed(a, width) == packed(b, width),
    decreases width,
{
    if width > 0 {
        packed_agrees(a, b, (width - 1) as nat);
    }
}

/// The keys of two references are in the order of the references byte by
/// byte: the map that is keyed by them keeps its entries in that order.
pub proof fn key_keeps_order(a: Seq<char>, b: Seq<char>)
    requires
        fits(a, 12),
        fits(b, 12),
    ensures
        key_of(a) < key_of(b) <==> precedes(a, b),
{
    packed_is_bounded(a, 12);
    packed_is_bounded(b, 12);
    assert(limit(12) == 0x1_0000_0000_0000_0000_0000_0000) by {
        reveal_with_fuel(limit, 13);
    }
    if precedes(a, b) {
        let d = choose|d: int|
            0 <= d && padded(a, d) < padded(b, d) && forall|i: int|
                0 <= i < d ==> padded(a, i) == padded(b, i);
        packed_keeps_order(a, b, 12, d);
    }
    if key_of(a) < key_of(b) {
        let d = first_difference_of_bytes(a, b, 12);
        if padded(b, d) < padded(a, d) {
            packed_keeps_order(b, a, 12, d);
        }
    }
}

/// The first place up to the width at which two texts of bytes with
/// different packed numbers differ.
proof fn first_difference_of_bytes(a: Seq<char>, b: Seq<char>, width: nat) -> (d: int)
    requires
        fits(a, a.len() as int),
        fits(b, b.len() as int),
        packed(a, width) != packed(b, width),
    ensures
        0 <= d < width,
        padded(a, d) != padded(b, d),
        forall|i: int| 0 <= i < d ==> padded(a, i) == padded(b, i),
    decreases width,
{
    let w = (width - 1) as nat;
    if packed(a, w) != packed(b, w) {
        first_difference_of_bytes(a, b, w)
    } else {
        packed_tells_bytes(a, b, w);
        w as int
    }
}

/// Computes the key of a reference.
pub fn key(reference: &Reference) -> (k: u128)
    ensures
        k == key_of(reference@),
        fits(reference@, 12),
{
    let s = reference.as_str();
    let n: usize = s.unicode_len();
    let mut k: u128 = 0;
    let mut i: usize = 0;
    while i < 12
        invariant
            i <= 12,
            n == s@.len(),
            fits(s@, 12),
            k == packed(s@, i as nat),
        decreases 12 - i,
    {
        let d: u128 = if i < n {
            s.get_char(i) as u128
        } else {
            0
        };
        proof {
            packed_is_bounded(s@, i as nat);
            assert(limit(i as nat) <= 0x1_0000_0000_0000_0000_0000_00) by {
                reveal_with_fuel(limit, 13);
            }
        }
        k = k * 256 + d;
        i += 1;
    }
    k
}

} // verus!
