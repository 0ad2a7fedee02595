//! Short ASCII tokens of bounded length: references, programme, country and
//! region codes.
use crate::text::uppercase;
use vstd::prelude::*;
use vstd::string::*;

verus! {

/// Whether a text can be held by a token of at most `max` characters: it is no
/// longer than that, and each character is ASCII and not NUL.
pub open spec fn fits(s: Seq<char>, max: int) -> bool {
    &&& s.len() <= max
    &&& forall|i: int| 0 <= i < s.len() ==> '\u{1}' <= #[trigger] s[i] <= '\u{7f}'
}

/// An ASCII text of at most `N` characters, none of them NUL.
#[derive(Debug)]
pub struct Token<const N: usize> {
    text: String,
}

/// WWFF reference, such as `ONFF-0010`: the ITU prefix, `FF`, and a number.
pub type Reference = Token<12>;

impl<const N: usize> View for Token<N> {
    type V = Seq<char>;

    closed spec fn view(&self) -> Seq<char> {
        self.text@
    }
}

impl<const N: usize> Token<N> {
    #[verifier::type_invariant]
    spec fn well_formed(self) -> bool {
        fits(self.text@, N as int)
    }

    /// Encodes a text, or gives `None` where it does not fit.
    pub fn from_str(s: &str) -> (r: Option<Self>)
        ensures
            r is Some <==> fits(s@, N as int),
            r matches Some(t) ==> t@ == s@,
    {
        encode::<N>(s)
    }

    /// The characters of the token.
    pub fn as_str(&self) -> (r: &str)
        ensures
            r@ == self@,
            fits(self@, N as int),
    {
        proof {
            use_type_invariant(self);
        }
        self.text.as_str()
    }

    /// The token with its small letters made capital.
    pub fn to_ascii_uppercase(&self) -> (r: Self)
        ensures
            r@ == uppercase(self@),
            fits(r@, N as int),
    {
        proof {
            use_type_invariant(self);
            capitals_fit(self@, N as int);
        }
        capitalize::<N>(self)
    }
}

/// A text that fits still fits in capitals; so `onff-0010` and `ONFF-0010`
/// are both the reference `ONFF-0010`.
pub proof fn capitals_fit(s: Seq<char>, max: int)
    requires
        fits(s, max),
    ensures
        fits(uppercase(s), max),
        uppercase("onff-0010"@) == "ONFF-0010"@,
        uppercase("ONFF-0010"@) == "ONFF-0010"@,
        fits("ONFF-0010"@, 12),
{
    reveal_strlit("onff-0010");
    reveal_strlit("ONFF-0010");
    assert(uppercase("onff-0010"@) =~= "ONFF-0010"@);
    assert(uppercase("ONFF-0010"@) =~= "ONFF-0010"@);
}

/// `tinystr::TinyAsciiStr::<N>::from_str`: succeeds exactly on texts of at most
/// `N` bytes that are all ASCII and hold no NUL, and keeps the text as it is.
#[verifier::external_body]
fn encode<const N: usize>(s: &str) -> (r: Option<Token<N>>)
    ensures
        r is Some <==> fits(s@, N as int),
        r matches Some(t) ==> t@ == s@,
{
    tinystr::TinyAsciiStr::<N>::from_str(s).ok().map(|t| Token { text: t.as_str().to_string() })
}

/// `tinystr::TinyAsciiStr::to_ascii_uppercase`: maps `a` to `z` onto `A` to `Z`
/// and leaves every other character alone.
#[verifier::external_body]
fn capitalize<const N: usize>(t: &Token<N>) -> (r: Token<N>)
    ensures
        r@ == uppercase(t@),
{
    let tiny = tinystr::TinyAsciiStr::<N>::from_str(t.text.as_str()).unwrap();
    Token { text: tiny.to_ascii_uppercase().as_str().to_string() }
}

} // verus!
