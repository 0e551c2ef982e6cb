//! The operations this library takes from elsewhere and does not prove:
//! Unicode classification and case mapping of the standard library, regular
//! expression replacement, and diacritic removal. Each contract below is
//! believed, not checked.

use vstd::prelude::*;

verus! {

/// Whether `char::is_whitespace` holds of `c`, that is, whether `c` has the
/// Unicode property White_Space.
pub uninterp spec fn white_space(c: char) -> bool;

/// `char::is_whitespace`: the answer is a fixed property of the character.
pub assume_specification[ char::is_whitespace ](c: char) -> (b: bool)
    ensures
        b == white_space(c),
;

/// The characters of the string that `str::to_lowercase` returns for a string
/// with the characters `s`.
pub uninterp spec fn lowercase(s: Seq<char>) -> Seq<char>;

/// `str::to_lowercase`: the result depends on the characters alone. Nothing is
/// claimed about which characters it holds.
pub assume_specification[ str::to_lowercase ](s: &str) -> (r: String)
    ensures
        r@ == lowercase(s@),
;

/// `String::push`: appends one character and leaves the rest as it was.
pub assume_specification[ String::push ](s: &mut String, c: char)
    ensures
        final(s)@ == old(s)@.push(c),
;

/// Whether `regex::Regex::new` compiles `pattern`.
pub uninterp spec fn regex_accepts(pattern: Seq<char>) -> bool;

/// The characters of what `regex::Regex::replace_all` returns when the regex
/// compiled from `pattern` replaces its matches in `hay` by `rep`.
pub uninterp spec fn regex_replaced(pattern: Seq<char>, hay: Seq<char>, rep: Seq<char>) -> Seq<
    char,
>;

/// `regex::Regex::new` followed by `regex::Regex::replace_all`. `None` exactly
/// when the pattern does not compile; otherwise the replaced text, which
/// depends on the three strings alone. Nothing is claimed about what the
/// text holds.
#[verifier::external_body]
pub(crate) fn regex_replace_all(pattern: &str, hay: &str, rep: &str) -> (r: Option<String>)
    ensures
        r is Some <==> regex_accepts(pattern@),
        r matches Some(out) ==> out@ == regex_replaced(pattern@, hay@, rep@),
{
    match regex::Regex::new(pattern) {
        Ok(re) => Some(re.replace_all(hay, rep).into_owned()),
        Err(_) => None,
    }
}

/// The characters of what `diacritics::remove_diacritics` returns for a string
/// with the characters `s`.
pub uninterp spec fn diacritics_removed(s: Seq<char>) -> Seq<char>;

/// `diacritics::remove_diacritics`: the result depends on the characters
/// alone. Nothing is claimed about which characters it holds.
#[verifier::external_body]
pub(crate) fn remove_diacritics(s: &str) -> (r: String)
    ensures
        r@ == diacritics_removed(s@),
{
    diacritics::remove_diacritics(s)
}

} // verus!
