//! Declaration names, through the inflection rules of the `cruet` crate.

use vstd::prelude::*;

verus! {

/// What `cruet::to_pascal_case` makes of a name.
pub uninterp spec fn pascal_of(s: Seq<char>) -> Seq<char>;

/// What `cruet::to_singular` makes of a name.
pub uninterp spec fn singular_of(s: Seq<char>) -> Seq<char>;

/// Relies on `cruet::to_pascal_case`: capitalised words with the separators
/// removed; the result depends on the characters of the name alone.
#[verifier::external_body]
pub(crate) fn pascal_case(s: &str) -> (r: String)
    ensures
        r@ == pascal_of(s@),
{
    cruet::to_pascal_case(s)
}

/// Relies on `cruet::to_singular`: the singular form of the last word of a
/// name; the result depends on the characters of the name alone.
#[verifier::external_body]
pub(crate) fn singular(s: &str) -> (r: String)
    ensures
        r@ == singular_of(s@),
{
    cruet::to_singular(s)
}

} // verus!
