//! Character-level text operations taken from the standard library.
use vstd::prelude::*;

verus! {

/// What `str::to_lowercase` returns for the given characters.
pub uninterp spec fn lower_of(s: Seq<char>) -> Seq<char>;

/// Relies on `str::to_lowercase`: the lowercase mapping of each character,
/// a function of the characters alone.
#[verifier::external_body]
pub(crate) fn lowercase(s: &str) -> (r: String)
    ensures
        r@ == lower_of(s@),
{
    s.to_lowercase()
}

/// The characters of `s` with every `:` replaced by `_`.
pub open spec fn colons_to_underscores(s: Seq<char>) -> Seq<char> {
    s.map_values(|c: char| if c == ':' { '_' } else { c })
}

/// Relies on `str::replace` with a one-character pattern and replacement:
/// every occurrence of `:` becomes `_`, nothing else changes.
#[verifier::external_body]
pub(crate) fn replace_colons(s: &str) -> (r: String)
    ensures
        r@ == colons_to_underscores(s@),
{
    s.replace(":", "_")
}

} // verus!
