use vstd::prelude::*;

verus! {

/// An ASCII letter, as the first character of a native denomination must be.
pub open spec fn spec_denom_first_char(c: char) -> bool {
    ('a' <= c && c <= 'z') || ('A' <= c && c <= 'Z')
}

/// A character allowed after the first in a native denomination: an ASCII
/// letter or digit, or one of `/`, `:`, `.`, `_`, `-`.
pub open spec fn spec_denom_char(c: char) -> bool {
    spec_denom_first_char(c) || ('0' <= c && c <= '9') || c == '/' || c == ':' || c == '.'
        || c == '_' || c == '-'
}

/// A well-formed native denomination: 3 to 128 characters, the first an
/// ASCII letter, the rest from the denomination alphabet. (All allowed
/// characters are ASCII, so character and byte counts agree.)
pub open spec fn spec_valid_denom(s: Seq<char>) -> bool {
    &&& 3 <= s.len() <= 128
    &&& spec_denom_first_char(s[0])
    &&& forall|i: int| 1 <= i < s.len() ==> spec_denom_char(s[i])
}

/// Whether a string parses as a URL; what `url::Url::parse` accepts depends
/// on the string alone.
pub uninterp spec fn spec_valid_url(s: Seq<char>) -> bool;

/// Relies on `cw_denom::validate_native_denom`: it accepts exactly the
/// strings of 3 to 128 bytes that start with an ASCII letter and continue
/// with ASCII alphanumerics or `/`, `:`, `.`, `_`, `-`.
#[verifier::external_body]
pub(crate) fn validate_native_denom(denom: &String) -> (r: bool)
    ensures
        r == spec_valid_denom(denom@),
{
    cw_denom::validate_native_denom(denom.clone()).is_ok()
}

/// Relies on `url::Url::parse`: whether it accepts a string is a function
/// of the string alone.
#[verifier::external_body]
pub(crate) fn validate_url(s: &String) -> (r: bool)
    ensures
        r == spec_valid_url(s@),
{
    url::Url::parse(s.as_str()).is_ok()
}

} // verus!
