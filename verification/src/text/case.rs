//! Letter case.

use vstd::prelude::*;

verus! {

/// What `str::to_uppercase` of the standard library returns for a text: its
/// uppercase form under the Unicode case mapping, which depends on the text
/// alone. The mapping is not written out here, so nothing is known of the
/// value on any given text.
pub uninterp spec fn uppercase(s: Seq<char>) -> Seq<char>;

/// Calls `str::to_uppercase` of the standard library. Nothing is proved of
/// it: its result is taken to be `uppercase` of its argument.
#[verifier::external_body]
pub(crate) fn to_uppercase(s: &str) -> (r: String)
    ensures
        r@ == uppercase(s@),
{
    s.to_uppercase()
}

} // verus!
