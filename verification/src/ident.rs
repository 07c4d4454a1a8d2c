use crate::errors::VesperError;
use vstd::prelude::*;

verus! {

/// Whether `c` may start an identifier: an ASCII letter or an underscore.
pub open spec fn ident_start_char(c: char) -> bool {
    ('A' <= c && c <= 'Z') || ('a' <= c && c <= 'z') || c == '_'
}

/// Whether `c` may continue an identifier: an ASCII letter, a digit or an
/// underscore.
pub open spec fn ident_tail_char(c: char) -> bool {
    ident_start_char(c) || ('0' <= c && c <= '9')
}

/// The texts accepted as identifiers: 1 to 100 characters, the first an ASCII
/// letter or underscore, the rest ASCII letters, digits or underscores.
pub open spec fn is_valid_ident(s: Seq<char>) -> bool {
    &&& 1 <= s.len() <= 100
    &&& ident_start_char(s[0])
    &&& forall|i: int| 1 <= i < s.len() ==> ident_tail_char(#[trigger] s[i])
}

/// Relies on `strict_encoding::Ident::from_str`: an `RString` restricted to
/// the `AlphaLodash` first-character set and the `AlphaNumLodash` tail set,
/// confined to 1..=100 bytes. It accepts exactly the strings of 1 to 100
/// characters whose first character is an ASCII letter or underscore and whose
/// remaining characters are ASCII letters, digits or underscores; any
/// non-ASCII character falls outside both sets.
#[verifier::external_body]
fn accepted_ident(s: &str) -> (r: bool)
    ensures
        r == is_valid_ident(s@),
{
    <strict_encoding::Ident as std::str::FromStr>::from_str(s).is_ok()
}

/// A validated identifier: the subject of a node, or the name of a named
/// attribute.
///
/// The identifier rules themselves live in the external validator; this type
/// records the accepted text verbatim, and its view is that text.
#[derive(PartialEq, Eq, Hash, Debug)]
pub struct Ident {
    text: String,
}

impl View for Ident {
    type V = Seq<char>;

    closed spec fn view(&self) -> Seq<char> {
        self.text@
    }
}

impl Clone for Ident {
    fn clone(&self) -> (r: Ident)
        ensures
            r == *self,
    {
        Ident { text: self.text.clone() }
    }
}

impl Ident {
    /// Parses an identifier, accepting exactly the valid identifier texts and
    /// keeping the accepted text unchanged.
    pub fn from_str(s: &str) -> (r: Result<Ident, VesperError>)
        ensures
            r is Ok <==> is_valid_ident(s@),
            r is Ok ==> r->Ok_0@ == s@,
            r is Err ==> r->Err_0 == VesperError::InvalidIdentifier,
    {
        if accepted_ident(s) {
            Ok(Ident { text: String::from_str(s) })
        } else {
            Err(VesperError::InvalidIdentifier)
        }
    }

    /// The identifier's text.
    pub fn to_text(&self) -> (r: String)
        ensures
            r@ == self@,
    {
        self.text.clone()
    }
}

} // verus!
