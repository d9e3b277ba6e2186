use vstd::prelude::*;

verus! {

/// What `str::trim` leaves of a string: it depends on the characters alone.
pub uninterp spec fn trimmed(s: Seq<char>) -> Seq<char>;

/// Relies on `str::trim`: the string without leading and trailing whitespace.
#[verifier::external_body]
pub(crate) fn trim_whitespace(s: &String) -> (r: String)
    ensures
        r@ == trimmed(s@),
{
    s.trim().to_string()
}

} // verus!
