//! Regular expressions, compiled and run by the `regex` crate. What a match or a
//! replacement yields is named here by spec functions of the pattern text, the
//! haystack and the replacement; the two patterns this library uses are stated
//! further where the crate's documentation fixes their meaning.
use vstd::prelude::*;
use regex::Regex;

verus! {

/// `regex::Regex`, a compiled regex, which verified code holds without looking inside.
#[verifier::external_type_specification]
#[verifier::external_body]
pub struct ExRegex(Regex);

/// A character matched by the class `[a-zA-Z0-9_]`.
pub open spec fn is_slug_char(c: char) -> bool {
    ('a' <= c && c <= 'z') || ('A' <= c && c <= 'Z') || ('0' <= c && c <= '9') || c == '_'
}

/// The text of the pattern `[^a-zA-Z0-9_]`: one character outside that class.
pub open spec fn slug_pattern() -> Seq<char> {
    seq!['[', '^', 'a', '-', 'z', 'A', '-', 'Z', '0', '-', '9', '_', ']']
}

/// The text of the pattern `php\d+(?:\.\d+)*-fpm`: a PHP-FPM service name.
pub open spec fn php_fpm_pattern() -> Seq<char> {
    seq![
        'p', 'h', 'p', '\\', 'd', '+', '(', '?', ':', '\\', '.', '\\', 'd', '+', ')', '*', '-',
        'f', 'p', 'm',
    ]
}

/// Whether `Regex::new` accepts the pattern text.
pub uninterp spec fn regex_compiles(pattern: Seq<char>) -> bool;

/// What `Regex::replace_all` returns for the regex compiled from `pattern`.
pub uninterp spec fn regex_replace_all_result(
    pattern: Seq<char>,
    haystack: Seq<char>,
    rep: Seq<char>,
) -> Seq<char>;

/// The text of the leftmost-first match that `Regex::find` reports for the regex
/// compiled from `pattern`, if there is one.
pub uninterp spec fn regex_first_match(pattern: Seq<char>, haystack: Seq<char>) -> Option<
    Seq<char>,
>;

/// A regex compiled by the `regex` crate, with the pattern text it came from.
pub struct Pattern {
    regex: Regex,
    source: Ghost<Seq<char>>,
}

impl Pattern {
    /// The pattern text this regex was compiled from.
    pub closed spec fn source(&self) -> Seq<char> {
        self.source@
    }
}

/// `Regex::new`: compiles `pattern`, or gives the crate's error message.
/// Claimed: success depends on the pattern text alone, and the patterns
/// `[^a-zA-Z0-9_]` and `php\d+(?:\.\d+)*-fpm` compile.
#[verifier::external_body]
pub(crate) fn regex_new(pattern: &str) -> (r: Result<Pattern, String>)
    ensures
        r is Ok <==> regex_compiles(pattern@),
        r matches Ok(p) ==> p.source() == pattern@,
        pattern@ == slug_pattern() ==> r is Ok,
        pattern@ == php_fpm_pattern() ==> r is Ok,
{
    match Regex::new(pattern) {
        Ok(regex) => Ok(Pattern { regex, source: Ghost(pattern@) }),
        Err(e) => Err(e.to_string()),
    }
}

/// `Regex::replace_all` with a plain replacement text. Claimed: the result
/// depends on the pattern, haystack and replacement alone; for the class
/// `[^a-zA-Z0-9_]` and the replacement `_`, each character outside the class
/// (every match is one character) becomes `_` and all others stay.
#[verifier::external_body]
pub(crate) fn regex_replace_all(pattern: &Pattern, haystack: &str, rep: &str) -> (r: String)
    ensures
        r@ == regex_replace_all_result(pattern.source(), haystack@, rep@),
        pattern.source() == slug_pattern() && rep@ == seq!['_'] ==> r@ == haystack@.map_values(
            |c: char|
                if is_slug_char(c) {
                    c
                } else {
                    '_'
                },
        ),
{
    pattern.regex.replace_all(haystack, rep).into_owned()
}

/// `Regex::find`, keeping the matched text. Claimed: the result depends on the
/// pattern and haystack alone, and a match is a piece of the haystack.
#[verifier::external_body]
pub(crate) fn regex_find(pattern: &Pattern, haystack: &str) -> (r: Option<String>)
    ensures
        match r {
            Some(m) => regex_first_match(pattern.source(), haystack@) == Some(m@),
            None => regex_first_match(pattern.source(), haystack@) is None,
        },
        r matches Some(m) ==> crate::text::contains_seq(haystack@, m@),
{
    match pattern.regex.find(haystack) {
        Some(m) => Some(m.as_str().to_string()),
        None => None,
    }
}

} // verus!
