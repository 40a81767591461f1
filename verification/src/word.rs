//! Word characters: the characters a layout or variant token is made of.
//!
//! Within ASCII these are the letters, the digits and the underscore. Beyond
//! ASCII the Unicode tables of the `regex` crate decide, through its class
//! `\w`.

use regex::Regex;
use vstd::prelude::*;
use vstd::string::*;

verus! {

/// What the `regex` crate says of `pattern` and `haystack`: whether the
/// pattern has a match somewhere in the haystack, or none where the crate
/// does not accept the pattern.
pub uninterp spec fn regex_is_match(pattern: Seq<char>, haystack: Seq<char>) -> Option<bool>;

/// Calls `regex::Regex::new` on `pattern` and `regex::Regex::is_match` on
/// what it built. Nothing is proved of it. The contract claims only that the
/// answer depends on the two texts alone: it is `None` where `Regex::new`
/// turns the pattern down, and otherwise what `is_match` returns, which the
/// crate documents as true if and only if there is a match for the pattern
/// anywhere in the haystack.
#[verifier::external_body]
fn is_match(pattern: &str, haystack: &str) -> (found: Option<bool>)
    ensures
        found == regex_is_match(pattern@, haystack@),
{
    match Regex::new(pattern) {
        Ok(regex) => Some(regex.is_match(haystack)),
        Err(_) => None,
    }
}

/// Whether `c` is an ASCII letter, an ASCII digit or the underscore.
pub open spec fn is_ascii_word(c: char) -> bool {
    ('a' <= c && c <= 'z') || ('A' <= c && c <= 'Z') || ('0' <= c && c <= '9') || c == '_'
}

/// Whether `c` is a word character.
pub open spec fn is_word_char(c: char) -> bool {
    if c <= '\x7f' {
        is_ascii_word(c)
    } else {
        regex_is_match("\\w"@, seq![c]) == Some(true)
    }
}

/// Whether the character at `index` of `text` is a word character. `chars`
/// holds the characters of `text`.
pub fn word_char_at(text: &str, chars: &Vec<char>, index: usize) -> (word: bool)
    requires
        chars@ == text@,
        index < chars.len(),
    ensures
        word == is_word_char(text@[index as int]),
{
    let c = chars[index];
    if c <= '\x7f' {
        ('a' <= c && c <= 'z') || ('A' <= c && c <= 'Z') || ('0' <= c && c <= '9') || c == '_'
    } else {
        let single = text.substring_char(index, index + 1);
        assert(single@ =~= seq![c]);
        match is_match("\\w", single) {
            Some(found) => found,
            None => false,
        }
    }
}

} // verus!
