//! Percent-decoding of request paths, done by the `urlencoding` crate.

use vstd::prelude::*;

verus! {

/// What a decoder's outcome holds: the decoded text, or the text of the
/// error.
pub open spec fn outcome_view(decoded: Result<String, String>) -> Result<Seq<char>, Seq<char>> {
    match decoded {
        Ok(text) => Ok(text@),
        Err(reason) => Err(reason@),
    }
}

/// What `urlencoding::decode` makes of `encoded`: the decoded text, or, where
/// the decoded bytes are no UTF-8, the text that the error displays as. It
/// depends on `encoded` alone.
pub uninterp spec fn percent_decoded(encoded: Seq<char>) -> Result<Seq<char>, Seq<char>>;

/// Calls `urlencoding::decode` and hands its error on as the text that the
/// error displays as.
///
/// Believed, not proved: the outcome is `percent_decoded` of the argument,
/// and a text without `%` comes back as it is (the decoder returns its
/// argument where it finds no `%` in it).
#[verifier::external_body]
pub(crate) fn percent_decode(encoded: &str) -> (decoded: Result<String, String>)
    ensures
        outcome_view(decoded) == percent_decoded(encoded@),
        !encoded@.contains('%') ==> decoded is Ok && decoded->Ok_0@ == encoded@,
{
    match urlencoding::decode(encoded) {
        Ok(text) => Ok(text.into_owned()),
        Err(error) => Err(format!("{}", error)),
    }
}

} // verus!
