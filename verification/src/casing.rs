//! The capitalized form of an encoding's name, as it occurs in the names of
//! the runtime's serializer and deserializer classes.

use vstd::prelude::*;
use heck::CamelCase;

verus! {

/// The camel-case form of a text: its words, each capitalized, with nothing
/// between them.
pub uninterp spec fn camel_case(s: Seq<char>) -> Seq<char>;

/// Calls `heck::CamelCase::to_camel_case` on `s`. Taken on trust: the result
/// depends on the text alone. The contract gives it the name [`camel_case`]
/// and says nothing more of it.
#[verifier::external_body]
pub(crate) fn to_camel_case(s: &str) -> (r: String)
    ensures
        r@ == camel_case(s@),
{
    s.to_camel_case()
}

} // verus!
