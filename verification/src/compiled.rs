//! Compiled regular expressions, each kept together with the text and the
//! flag it was compiled from. Only this module builds one, and only from that
//! text and flag.
use vstd::prelude::*;

verus! {

#[verifier::external_type_specification]
#[verifier::external_body]
pub struct ExRegex(regex::Regex);

#[verifier::external_type_specification]
#[verifier::external_body]
pub struct ExRegexError(regex::Error);

/// Whether the `regex` crate compiles `pattern` (case-insensitively when asked)
/// within its default limits.
pub uninterp spec fn regex_compiles(pattern: Seq<char>, case_insensitive: bool) -> bool;

/// Whether the expression compiled from `pattern` (case-insensitively when
/// asked) matches somewhere in `haystack`.
pub uninterp spec fn regex_is_match(
    pattern: Seq<char>,
    case_insensitive: bool,
    haystack: Seq<char>,
) -> bool;

/// A compiled pattern together with the text and flag it was compiled from.
pub struct CompiledPattern {
    source: String,
    case_insensitive: bool,
    regex: regex::Regex,
}

impl View for CompiledPattern {
    type V = (Seq<char>, bool);

    closed spec fn view(&self) -> (Seq<char>, bool) {
        (self.source@, self.case_insensitive)
    }
}

/// Compiles `source` (`regex::RegexBuilder::new(source).case_insensitive(..).build()`).
/// Whether it compiles is named by `regex_compiles`; a compiled pattern keeps
/// its source and flag.
#[verifier::external_body]
pub(crate) fn compile_regex(source: String, case_insensitive: bool) -> (r: Result<CompiledPattern, regex::Error>)
    ensures
        r is Ok <==> regex_compiles(source@, case_insensitive),
        r matches Ok(p) ==> p@ == (source@, case_insensitive),
{
    regex::RegexBuilder::new(source.as_str()).case_insensitive(case_insensitive).build().map(
        |regex| CompiledPattern { source, case_insensitive, regex },
    )
}

/// Whether the compiled pattern matches somewhere in `haystack`
/// (`regex::Regex::is_match`), as named by `regex_is_match` for the pattern's
/// source and flag. A `CompiledPattern` is only made by `compile_regex`, so its
/// expression is the one compiled from that source and flag.
#[verifier::external_body]
fn regex_matches(pattern: &CompiledPattern, haystack: &str) -> (b: bool)
    ensures
        b == regex_is_match(pattern@.0, pattern@.1, haystack@),
{
    pattern.regex.is_match(haystack)
}

impl CompiledPattern {
    /// Whether this pattern matches somewhere in `haystack`.
    pub fn is_match(&self, haystack: &str) -> (b: bool)
        ensures
            b == regex_is_match(self@.0, self@.1, haystack@),
    {
        regex_matches(self, haystack)
    }
}

} // verus!
