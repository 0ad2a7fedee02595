//! Helpers on characters and strings shared by the field decoders.
use vstd::prelude::*;
use vstd::string::*;

verus! {

/// The lower-case form of an ASCII capital; any other character is kept.
pub open spec fn lower(c: char) -> char {
    if 'A' <= c <= 'Z' {
        ((c as u8) + 32) as char
    } else {
        c
    }
}

/// The upper-case form of an ASCII small letter; any other character is kept.
pub open spec fn upper(c: char) -> char {
    if 'a' <= c <= 'z' {
        ((c as u8) - 32) as char
    } else {
        c
    }
}

/// A text with every ASCII capital replaced by its small letter.
pub open spec fn lowercase(s: Seq<char>) -> Seq<char> {
    Seq::new(s.len(), |i: int| lower(s[i]))
}

/// A text with every ASCII small letter replaced by its capital.
pub open spec fn uppercase(s: Seq<char>) -> Seq<char> {
    Seq::new(s.len(), |i: int| upper(s[i]))
}

/// The three spellings that stand for "no value" in the listing: the empty
/// cell, a single dash, and `n/a`.
pub open spec fn absent(s: Seq<char>) -> bool {
    s.len() == 0 || s == seq!['-'] || s == seq!['n', '/', 'a']
}

/// Each capital has one small letter and each small letter one capital, 32
/// code points apart.
pub proof fn letters_pair_up(x: char, y: char)
    ensures
        lower(x) == lower(y) ==> upper(x) == upper(y),
        upper(upper(x)) == upper(x),
        upper(lower(x)) == upper(x),
        lower(upper(x)) == lower(x),
        '\u{1}' <= x <= '\u{7f}' ==> '\u{1}' <= upper(x) <= '\u{7f}',
{
    let lx = lower(x);
    let ly = lower(y);
    let ux = upper(x);
    if 'A' <= x <= 'Z' {
        assert(lx as int == x as int + 32);
    }
    if 'A' <= y <= 'Z' {
        assert(ly as int == y as int + 32);
    }
    if 'a' <= x <= 'z' {
        assert(ux as int == x as int - 32);
    }
    if 'a' <= y <= 'z' {
        assert(upper(y) as int == y as int - 32);
    }
    if 'a' <= lx <= 'z' {
        assert(upper(lx) as int == lx as int - 32);
    }
    if 'A' <= ux <= 'Z' {
        assert(lower(ux) as int == ux as int + 32);
    }
}

/// Two texts that differ at most in the case of their letters are the same
/// text in capitals, and a text in capitals stays as it is when it is put in
/// capitals once more.
pub proof fn capitals_forget_case(a: Seq<char>, b: Seq<char>)
    requires
        lowercase(a) == lowercase(b),
    ensures
        uppercase(a) == uppercase(b),
        uppercase(uppercase(a)) == uppercase(a),
        uppercase(lowercase(a)) == uppercase(a),
{
    assert(a.len() == lowercase(a).len() && b.len() == lowercase(b).len());
    assert forall|i: int| 0 <= i < a.len() implies upper(a[i]) == upper(b[i]) by {
        assert(lowercase(a)[i] == lower(a[i]));
        assert(lowercase(b)[i] == lower(b[i]));
        letters_pair_up(a[i], b[i]);
    }
    assert forall|i: int| 0 <= i < a.len() implies upper(upper(a[i])) == upper(a[i]) && upper(
        lower(a[i]),
    ) == upper(a[i]) by {
        letters_pair_up(a[i], a[i]);
    }
    assert(uppercase(a) =~= uppercase(b));
    assert(uppercase(uppercase(a)) =~= uppercase(a));
    assert(uppercase(lowercase(a)) =~= uppercase(a));
}

/// Whether two strings hold the same characters.
pub fn same_text(a: &str, b: &str) -> (r: bool)
    ensures
        r == (a@ == b@),
{
    let n: usize = a.unicode_len();
    if n != b.unicode_len() {
        return false;
    }
    let mut i: usize = 0;
    while i < n
        invariant
            n == a@.len(),
            n == b@.len(),
            i <= n,
            forall|j: int| 0 <= j < i ==> a@[j] == b@[j],
        decreases n - i,
    {
        if a.get_char(i) != b.get_char(i) {
            return false;
        }
        i += 1;
    }
    assert(a@ =~= b@);
    true
}

/// Whether a string, with its ASCII capitals made small, reads as `label`.
pub fn same_text_ignoring_case(a: &str, label: &str) -> (r: bool)
    ensures
        r == (lowercase(a@) == label@),
{
    let n: usize = a.unicode_len();
    if n != label.unicode_len() {
        return false;
    }
    let mut i: usize = 0;
    while i < n
        invariant
            n == a@.len(),
            n == label@.len(),
            i <= n,
            forall|j: int| 0 <= j < i ==> lower(a@[j]) == label@[j],
        decreases n - i,
    {
        if to_lower(a.get_char(i)) != label.get_char(i) {
            assert(lowercase(a@)[i as int] != label@[i as int]);
            return false;
        }
        i += 1;
    }
    assert(lowercase(a@) =~= label@);
    true
}

/// Makes an ASCII capital small.
pub fn to_lower(c: char) -> (r: char)
    ensures
        r == lower(c),
{
    if 'A' <= c && c <= 'Z' {
        ((c as u8) + 32) as char
    } else {
        c
    }
}

/// Whether a cell holds one of the spellings of "no value".
pub fn is_absent(s: &str) -> (r: bool)
    ensures
        r == absent(s@),
{
    let n: usize = s.unicode_len();
    if n == 0 {
        true
    } else if n == 1 {
        let r = s.get_char(0) == '-';
        assert(r == (s@ =~= seq!['-']));
        r
    } else if n == 3 {
        let r = s.get_char(0) == 'n' && s.get_char(1) == '/' && s.get_char(2) == 'a';
        assert(r == (s@ =~= seq!['n', '/', 'a']));
        r
    } else {
        false
    }
}

} // verus!
