//! Numeric cells: small unsigned integers, and decimal numerals.
use crate::text::{lower, lowercase, same_text_ignoring_case, to_lower};
use vstd::prelude::*;
use vstd::string::*;

verus! {

/// The value of a digit in the given radix, 10 or 16.
pub open spec fn digit_value(c: char, radix: int) -> Option<int> {
    if '0' <= c <= '9' {
        Some(c as int - '0' as int)
    } else if radix == 16 && 'a' <= c <= 'f' {
        Some(c as int - 'a' as int + 10)
    } else if radix == 16 && 'A' <= c <= 'F' {
        Some(c as int - 'A' as int + 10)
    } else {
        None
    }
}

/// The number that a run of digits writes, most significant digit first;
/// `None` where a character is no digit.
pub open spec fn digits_value(s: Seq<char>, radix: int) -> Option<int>
    decreases s.len(),
{
    if s.len() == 0 {
        Some(0)
    } else {
        match (digits_value(s.drop_last(), radix), digit_value(s.last(), radix)) {
            (Some(v), Some(d)) => Some(v * radix + d),
            _ => None,
        }
    }
}

/// An optional `+` and at least one digit, with a value of at most `max`.
pub open spec fn unsigned(s: Seq<char>, radix: int, max: int) -> Option<int> {
    let body = if s.len() > 0 && s[0] == '+' {
        s.skip(1)
    } else {
        s
    };
    if body.len() == 0 {
        None
    } else {
        match digits_value(body, radix) {
            Some(v) => if v <= max {
                Some(v)
            } else {
                None
            },
            None => None,
        }
    }
}

/// How an integer column reads a cell: hexadecimal behind the prefix `0x`,
/// decimal otherwise.
pub open spec fn integer_cell(s: Seq<char>, max: int) -> Option<int> {
    if s.len() >= 2 && s[0] == '0' && s[1] == 'x' {
        unsigned(s.skip(2), 16, max)
    } else {
        unsigned(s, 10, max)
    }
}

/// A cell that holds no number of the range of its column.
#[derive(Debug, Clone, Copy, PartialEq, Eq, Structural)]
pub struct NotANumber;

/// Reads a cell of a `u8` column: an error where the cell holds no number
/// below 256.
pub fn deserialize_u8(s: &str) -> (r: Result<u8, NotANumber>)
    ensures
        r is Ok <==> integer_cell(s@, 0xff) is Some,
        r matches Ok(v) ==> integer_cell(s@, 0xff) == Some(v as int),
{
    match cell_u8(s) {
        Some(v) => Ok(v),
        None => Err(NotANumber),
    }
}

/// Reads a cell of a `u16` column that may be left without a value. The empty
/// cell and a cell that holds no number below 65536 give `None`, never an
/// error.
pub fn deserialize_u16_opt(s: &str) -> (r: Option<u16>)
    ensures
        r is Some <==> integer_cell(s@, 0xffff) is Some,
        r matches Some(v) ==> integer_cell(s@, 0xffff) == Some(v as int),
{
    cell_u16(s)
}

/// Reads a cell of a `u32` column that may be left without a value. The empty
/// cell and a cell that holds no number below 2^32 give `None`, never an
/// error.
pub fn deserialize_u32_opt(s: &str) -> (r: Option<u32>)
    ensures
        r is Some <==> integer_cell(s@, 0xffff_ffff) is Some,
        r matches Some(v) ==> integer_cell(s@, 0xffff_ffff) == Some(v as int),
{
    cell_u32(s)
}

/// The empty cell and a text without digits, such as `abc`, are no integer;
/// `209` is one, and so is `0x1f`, which is 31.
pub proof fn integer_examples()
    ensures
        integer_cell(""@, 0xffff) is None,
        integer_cell("abc"@, 0xffff) is None,
        integer_cell("209"@, 0xffff) == Some(209int),
        integer_cell("0x1f"@, 0xff) == Some(31int),
        integer_cell("256"@, 0xff) is None,
{
    reveal_strlit("");
    reveal_strlit("abc");
    reveal_strlit("209");
    reveal_strlit("0x1f");
    reveal_strlit("256");
    reveal_with_fuel(digits_value, 4);
    let abc = "abc"@;
    assert(digit_value(abc.last(), 10) is None);
    let n = "209"@;
    assert(n.drop_last() =~= seq!['2', '0']);
    assert(n.drop_last().drop_last() =~= seq!['2']);
    assert(n.drop_last().drop_last().drop_last() =~= Seq::<char>::empty());
    assert(digits_value(n, 10) == Some(209int));
    let h = "0x1f"@.skip(2);
    assert(h =~= seq!['1', 'f']);
    assert(h.drop_last() =~= seq!['1']);
    assert(h.drop_last().drop_last() =~= Seq::<char>::empty());
    assert(digits_value(h, 16) == Some(31int));
    let m = "256"@;
    assert(m.drop_last() =~= seq!['2', '5']);
    assert(m.drop_last().drop_last() =~= seq!['2']);
    assert(m.drop_last().drop_last().drop_last() =~= Seq::<char>::empty());
    assert(digits_value(m, 10) == Some(256int));
}

/// A decimal digit.
pub open spec fn is_digit(c: char) -> bool {
    '0' <= c <= '9'
}

/// A plus or a minus sign.
pub open spec fn is_sign(c: char) -> bool {
    c == '+' || c == '-'
}

/// The index just behind the run of decimal digits that starts at `from`.
pub open spec fn digits_end(s: Seq<char>, from: int) -> int
    decreases s.len() - from,
{
    if 0 <= from < s.len() && is_digit(s[from]) {
        digits_end(s, from + 1)
    } else {
        from
    }
}

/// Whether the text ends at `at`, or holds from there an exponent and no
/// more: the letter `e` in either case, an optional sign, one or more digits.
pub open spec fn exponent_at(s: Seq<char>, at: int) -> bool {
    at == s.len() || {
        let d = if at + 1 < s.len() && is_sign(s[at + 1]) {
            at + 2
        } else {
            at + 1
        };
        lower(s[at]) == 'e' && digits_end(s, d) > d && digits_end(s, d) == s.len()
    }
}

/// Whether the text holds from `from` a number and no more: digits with at
/// most one point among them, at least one digit in all, and an optional
/// exponent.
pub open spec fn number_at(s: Seq<char>, from: int) -> bool {
    let b = digits_end(s, from);
    if b < s.len() && s[b] == '.' {
        let c = digits_end(s, b + 1);
        (b - from) + (c - (b + 1)) >= 1 && exponent_at(s, c)
    } else {
        b - from >= 1 && exponent_at(s, b)
    }
}

/// Whether a text is a decimal numeral as Rust reads a float: an optional
/// sign, and behind it `inf`, `infinity` or `nan` in any case, or a number.
pub open spec fn numeral(s: Seq<char>) -> bool {
    let from = if s.len() > 0 && is_sign(s[0]) {
        1int
    } else {
        0int
    };
    let word = lowercase(s.skip(from));
    word == "inf"@ || word == "infinity"@ || word == "nan"@ || number_at(s, from)
}

/// A decimal numeral, kept as the text that was read.
#[derive(Debug)]
pub struct Numeral {
    text: String,
}

impl View for Numeral {
    type V = Seq<char>;

    closed spec fn view(&self) -> Seq<char> {
        self.text@
    }
}

impl Numeral {
    #[verifier::type_invariant]
    spec fn well_formed(self) -> bool {
        numeral(self.text@)
    }

    /// The numeral as it was written.
    pub fn as_str(&self) -> (r: &str)
        ensures
            r@ == self@,
            numeral(self@),
    {
        proof {
            use_type_invariant(self);
        }
        self.text.as_str()
    }
}

fn is_digit_char(c: char) -> (r: bool)
    ensures
        r == is_digit(c),
{
    '0' <= c && c <= '9'
}

fn is_sign_char(c: char) -> (r: bool)
    ensures
        r == is_sign(c),
{
    c == '+' || c == '-'
}

fn skip_digits(s: &str, n: usize, from: usize) -> (r: usize)
    requires
        n == s@.len(),
        from <= n,
    ensures
        r == digits_end(s@, from as int),
        from <= r <= n,
{
    let mut i: usize = from;
    while i < n && is_digit_char(s.get_char(i))
        invariant
            n == s@.len(),
            from <= i <= n,
            digits_end(s@, from as int) == digits_end(s@, i as int),
        decreases n - i,
    {
        i += 1;
    }
    i
}

fn is_exponent_at(s: &str, n: usize, at: usize) -> (r: bool)
    requires
        n == s@.len(),
        at <= n,
    ensures
        r == exponent_at(s@, at as int),
{
    if at == n {
        return true;
    }
    if to_lower(s.get_char(at)) != 'e' {
        return false;
    }
    let d: usize = if at + 1 < n && is_sign_char(s.get_char(at + 1)) {
        at + 2
    } else {
        at + 1
    };
    let e: usize = skip_digits(s, n, d);
    e > d && e == n
}

/// Whether a text is a decimal numeral.
pub fn is_numeral(s: &str) -> (r: bool)
    ensures
        r == numeral(s@),
{
    let n: usize = s.unicode_len();
    let from: usize = if n > 0 && is_sign_char(s.get_char(0)) {
        1
    } else {
        0
    };
    let word = s.substring_char(from, n);
    assert(word@ =~= s@.skip(from as int));
    if same_text_ignoring_case(word, "inf") || same_text_ignoring_case(word, "infinity")
        || same_text_ignoring_case(word, "nan") {
        return true;
    }
    let b: usize = skip_digits(s, n, from);
    if b < n && s.get_char(b) == '.' {
        let c: usize = skip_digits(s, n, b + 1);
        (b - from) + (c - (b + 1)) >= 1 && is_exponent_at(s, n, c)
    } else {
        b - from >= 1 && is_exponent_at(s, n, b)
    }
}

/// Decodes a cell that should hold a decimal number. A cell that holds none
/// gives `None`, never an error.
pub fn deserialize_f32_opt(s: &str) -> (r: Option<Numeral>)
    ensures
        r is Some <==> numeral(s@),
        r matches Some(v) ==> v@ == s@,
{
    if is_numeral(s) {
        Some(Numeral { text: String::from_str(s) })
    } else {
        None
    }
}

/// A text without digits, such as `abc`, is no numeral, and `61.234` is one.
pub proof fn numeral_examples()
    ensures
        !numeral("abc"@),
        !numeral(""@),
        numeral("61.234"@),
        numeral("-7"@),
{
    reveal_strlit("abc");
    reveal_strlit("");
    reveal_strlit("61.234");
    reveal_strlit("-7");
    reveal_strlit("inf");
    reveal_strlit("infinity");
    reveal_strlit("nan");
    reveal_with_fuel(digits_end, 5);
    assert(lowercase("abc"@.skip(0))[0] == 'a');
    assert(lowercase(""@.skip(0)).len() == 0);
}

/// `csv::StringRecord::deserialize` on a record of this one cell, read as a
/// `u8`: `csv` hands what follows a leading `0x` to `u8::from_str_radix` with
/// radix 16 and any other cell to `str::parse`. Both take an optional `+` and
/// one or more digits and fail on overflow.
#[verifier::external_body]
fn cell_u8(s: &str) -> (r: Option<u8>)
    ensures
        r is Some <==> integer_cell(s@, 0xff) is Some,
        r matches Some(v) ==> integer_cell(s@, 0xff) == Some(v as int),
{
    csv::StringRecord::from(vec![s]).deserialize::<(u8,)>(None).ok().map(|t| t.0)
}

/// `csv::StringRecord::deserialize` on a record of this one cell, read as a
/// `u16`; see [`cell_u8`].
#[verifier::external_body]
fn cell_u16(s: &str) -> (r: Option<u16>)
    ensures
        r is Some <==> integer_cell(s@, 0xffff) is Some,
        r matches Some(v) ==> integer_cell(s@, 0xffff) == Some(v as int),
{
    csv::StringRecord::from(vec![s]).deserialize::<(u16,)>(None).ok().map(|t| t.0)
}

/// `csv::StringRecord::deserialize` on a record of this one cell, read as a
/// `u32`; see [`cell_u8`].
#[verifier::external_body]
fn cell_u32(s: &str) -> (r: Option<u32>)
    ensures
        r is Some <==> integer_cell(s@, 0xffff_ffff) is Some,
        r matches Some(v) ==> integer_cell(s@, 0xffff_ffff) == Some(v as int),
{
    csv::StringRecord::from(vec![s]).deserialize::<(u32,)>(None).ok().map(|t| t.0)
}

} // verus!
