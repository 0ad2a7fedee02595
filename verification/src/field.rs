//! Decoders of cells that may be left without a value.
use crate::text::{absent, is_absent, same_text};
use crate::token::{fits, Token};
use vstd::prelude::*;
use vstd::string::*;

verus! {

/// Unicode's `White_Space` property, which `str::trim` goes by: the controls
/// from tab to carriage return, the space, next line, the no-break spaces,
/// the Ogham space mark, the spaces of fixed width, the line and paragraph
/// separators, the mathematical space and the ideographic space.
pub open spec fn white_space(c: char) -> bool {
    ||| '\u{9}' <= c <= '\u{d}'
    ||| c == ' '
    ||| c == '\u{85}'
    ||| c == '\u{a0}'
    ||| c == '\u{1680}'
    ||| '\u{2000}' <= c <= '\u{200a}'
    ||| c == '\u{2028}'
    ||| c == '\u{2029}'
    ||| c == '\u{202f}'
    ||| c == '\u{205f}'
    ||| c == '\u{3000}'
}

/// Whether a text holds white space and nothing else.
pub open spec fn blank(s: Seq<char>) -> bool {
    forall|i: int| 0 <= i < s.len() ==> white_space(#[trigger] s[i])
}

/// A text without the white space at its start.
pub open spec fn trimmed_start(s: Seq<char>) -> Seq<char>
    decreases s.len(),
{
    if s.len() > 0 && white_space(s[0]) {
        trimmed_start(s.skip(1))
    } else {
        s
    }
}

/// A text without the white space at its end.
pub open spec fn trimmed_end(s: Seq<char>) -> Seq<char>
    decreases s.len(),
{
    if s.len() > 0 && white_space(s.last()) {
        trimmed_end(s.drop_last())
    } else {
        s
    }
}

/// A text without the white space at either end.
pub open spec fn trimmed(s: Seq<char>) -> Seq<char> {
    trimmed_end(trimmed_start(s))
}

/// A cell whose text is too long for its token, or not plain ASCII.
#[derive(Debug, Clone, Copy, PartialEq, Eq, Structural)]
pub struct DoesNotFit;

/// A region name that reached the listing in a wrong character set. It stands
/// in token columns of a few rows and is read as "no value".
pub open spec fn garbled_region() -> Seq<char> {
    "Regi\u{221a}\u{2265}n 1"@
}

/// What a text column that may be left empty holds: nothing for one of the
/// spellings of "no value", else the cell as it is, spaces included.
pub open spec fn optional_text(s: Seq<char>) -> Option<Seq<char>> {
    if absent(s) {
        None
    } else {
        Some(s)
    }
}

/// What a token column that may be left empty holds: nothing for one of the
/// spellings of "no value" and for the garbled region name; else the cell
/// without the white space around it, which must fit (`Err` where it does
/// not).
pub open spec fn optional_token(s: Seq<char>, max: int) -> Result<Option<Seq<char>>, DoesNotFit> {
    if absent(s) || s == garbled_region() {
        Ok(None)
    } else if fits(trimmed(s), max) {
        Ok(Some(trimmed(s)))
    } else {
        Err(DoesNotFit)
    }
}

/// The view of a decoded token cell.
pub open spec fn token_cell_view<const N: usize>(r: Result<Option<Token<N>>, DoesNotFit>) -> Result<
    Option<Seq<char>>,
    DoesNotFit,
> {
    match r {
        Ok(Some(t)) => Ok(Some(t@)),
        Ok(None) => Ok(None),
        Err(e) => Err(e),
    }
}

/// Decodes a text cell that may be left empty.
pub fn deserialize_string_opt(s: &str) -> (r: Option<String>)
    ensures
        r is Some <==> !absent(s@),
        r matches Some(t) ==> t@ == s@,
        optional_text(s@) == (match r {
            Some(t) => Some(t@),
            None => None,
        }),
{
    if is_absent(s) {
        None
    } else {
        Some(String::from_str(s))
    }
}

/// Decodes a token cell that may be left empty. A text that is there and
/// cannot be encoded is an error, not "no value".
pub fn deserialize_tinystr<const N: usize>(s: &str) -> (r: Result<Option<Token<N>>, DoesNotFit>)
    ensures
        token_cell_view(r) == optional_token(s@, N as int),
{
    if is_absent(s) {
        return Ok(None);
    }
    if same_text(s, "Regi\u{221a}\u{2265}n 1") {
        return Ok(None);
    }
    match Token::<N>::from_str(trim(s)) {
        Some(t) => Ok(Some(t)),
        None => Err(DoesNotFit),
    }
}

/// `str::trim`: the text without its leading and trailing white space, which
/// is what has Unicode's `White_Space` property.
#[verifier::external_body]
fn trim(s: &str) -> (r: &str)
    ensures
        r@ == trimmed(s@),
{
    s.trim()
}

/// The three spellings of "no value" give nothing; any other text is kept to
/// the letter, with the spaces around it.
pub proof fn optional_text_keeps_all_else(s: Seq<char>)
    ensures
        optional_text(""@) is None,
        optional_text("-"@) is None,
        optional_text("n/a"@) is None,
        !absent(s) ==> optional_text(s) == Some(s),
        optional_text(" Foo "@) == Some(" Foo "@),
{
    reveal_strlit("");
    reveal_strlit("-");
    reveal_strlit("n/a");
    reveal_strlit(" Foo ");
    assert(""@ =~= Seq::<char>::empty());
    assert("-"@ =~= seq!['-']);
    assert("n/a"@ =~= seq!['n', '/', 'a']);
    assert(" Foo "@.len() == 5);
}

/// White space in front of a text is removed.
pub proof fn leading_blank_is_removed(left: Seq<char>, rest: Seq<char>)
    requires
        blank(left),
    ensures
        trimmed_start(left + rest) == trimmed_start(rest),
    decreases left.len(),
{
    if left.len() == 0 {
        assert(left + rest =~= rest);
    } else {
        assert((left + rest)[0] == left[0]);
        assert((left + rest).skip(1) =~= left.skip(1) + rest);
        leading_blank_is_removed(left.skip(1), rest);
    }
}

/// White space behind a text is removed.
pub proof fn trailing_blank_is_removed(rest: Seq<char>, right: Seq<char>)
    requires
        blank(right),
    ensures
        trimmed_end(rest + right) == trimmed_end(rest),
    decreases right.len(),
{
    if right.len() == 0 {
        assert(rest + right =~= rest);
    } else {
        assert((rest + right).last() == right.last());
        assert((rest + right).drop_last() =~= rest + right.drop_last());
        trailing_blank_is_removed(rest, right.drop_last());
    }
}

/// Trimming removes the white space around a text and nothing else: what
/// stands between the first and the last character that is no white space
/// is kept to the letter.
pub proof fn trimming_keeps_the_core(left: Seq<char>, core: Seq<char>, right: Seq<char>)
    requires
        blank(left),
        blank(right),
        core.len() > 0 ==> !white_space(core.first()) && !white_space(core.last()),
    ensures
        trimmed(left + core + right) == core,
{
    assert(left + core + right =~= left + (core + right));
    leading_blank_is_removed(left, core + right);
    if core.len() > 0 {
        assert((core + right)[0] == core[0]);
        trailing_blank_is_removed(core, right);
    } else {
        assert(core + right =~= right);
        assert(right =~= right + Seq::<char>::empty());
        leading_blank_is_removed(right, Seq::<char>::empty());
    }
}

/// A token cell with more characters than its token can hold, and no white
/// space at either end, is an error: it is not taken for "no value".
pub proof fn long_token_is_an_error(s: Seq<char>, max: int)
    requires
        0 <= max < s.len(),
        !absent(s),
        s != garbled_region(),
        !white_space(s.first()),
        !white_space(s.last()),
    ensures
        trimmed(s) == s,
        optional_token(s, max) == Err::<Option<Seq<char>>, _>(DoesNotFit),
{
}

/// What token cells give: a code of 20 characters is an error for a token of
/// 8; white space around a code is removed; a cell of white space alone is
/// the empty token; a dash and the garbled region name are no value.
pub proof fn token_examples()
    ensures
        optional_token("ABCDEFGHIJKLMNOPQRST"@, 8) == Err::<Option<Seq<char>>, _>(DoesNotFit),
        optional_token("  EU-001 \t"@, 8) == Ok::<_, DoesNotFit>(Some("EU-001"@)),
        optional_token("   "@, 8) == Ok::<_, DoesNotFit>(Some(Seq::<char>::empty())),
        optional_token("-"@, 8) == Ok::<_, DoesNotFit>(None::<Seq<char>>),
        optional_token(garbled_region(), 12) == Ok::<_, DoesNotFit>(None::<Seq<char>>),
{
    reveal_strlit("ABCDEFGHIJKLMNOPQRST");
    reveal_strlit("  EU-001 \t");
    reveal_strlit("EU-001");
    reveal_strlit("   ");
    reveal_strlit("-");
    reveal_strlit("Regi\u{221a}\u{2265}n 1");
    let long = "ABCDEFGHIJKLMNOPQRST"@;
    assert(long[4] != 'i');
    long_token_is_an_error(long, 8);
    let padded = "  EU-001 \t"@;
    let code = "EU-001"@;
    assert(padded =~= seq![' ', ' '] + code + seq![' ', '\t']);
    trimming_keeps_the_core(seq![' ', ' '], code, seq![' ', '\t']);
    assert(padded[2] != 'g');
    let spaces = "   "@;
    assert(spaces =~= spaces + Seq::<char>::empty() + Seq::<char>::empty());
    trimming_keeps_the_core(spaces, Seq::<char>::empty(), Seq::<char>::empty());
    assert("-"@ =~= seq!['-']);
}

} // verus!
