//! The pattern matchers that segment source text, and the fixed patterns
//! they are built from.
//!
//! Matching itself is done by the `regex` crate. What a search returns is
//! not restated here: it is named, as a function of the pattern and the
//! text searched, and the rest of the crate is proved for whatever those
//! names stand for.

use regex::Regex;
use vstd::prelude::*;

use crate::error::ParseError;

verus! {

/// `regex::Regex`, a compiled pattern.
#[verifier::external_type_specification]
#[verifier::external_body]
pub struct ExRegex(regex::Regex);

/// `regex::Error`, why a pattern was rejected.
#[verifier::external_type_specification]
#[verifier::external_body]
pub struct ExRegexError(regex::Error);

/// The pattern text a matcher was compiled from, as `Regex::as_str` gives it.
pub uninterp spec fn regex_pattern(re: Regex) -> Seq<char>;

/// Whether `Regex::new` accepts `pattern`.
pub uninterp spec fn regex_compiles(pattern: Seq<char>) -> bool;

/// The texts of the successive non-overlapping matches of `pattern` in
/// `haystack`, in order, as `Regex::find_iter` yields them.
pub uninterp spec fn regex_find_all(pattern: Seq<char>, haystack: Seq<char>) -> Seq<Seq<char>>;

/// The capture groups of the first match of `pattern` in `haystack`, as
/// `Regex::captures` gives them: group 0 (the whole match) first, and
/// `None` for a group that took no part. `None` when nothing matches.
pub uninterp spec fn regex_captures(pattern: Seq<char>, haystack: Seq<char>) -> Option<
    Seq<Option<Seq<char>>>,
>;

/// The capture groups of each successive non-overlapping match of
/// `pattern` in `haystack`, as `Regex::captures_iter` yields them.
pub uninterp spec fn regex_captures_all(pattern: Seq<char>, haystack: Seq<char>) -> Seq<
    Seq<Option<Seq<char>>>,
>;

/// The texts that a vector of strings holds.
pub open spec fn texts(v: Seq<String>) -> Seq<Seq<char>> {
    v.map_values(|s: String| s@)
}

/// The text of an optional string.
pub open spec fn group_text(g: Option<String>) -> Option<Seq<char>> {
    match g {
        Some(s) => Some(s@),
        None => None,
    }
}

/// The texts of the capture groups of one match.
pub open spec fn group_texts(v: Seq<Option<String>>) -> Seq<Option<Seq<char>>> {
    v.map_values(|g: Option<String>| group_text(g))
}

/// The texts of the capture groups of an optional match.
pub open spec fn capture_texts(c: Option<Vec<Option<String>>>) -> Option<Seq<Option<Seq<char>>>> {
    match c {
        Some(v) => Some(group_texts(v@)),
        None => None,
    }
}

/// The texts of the capture groups of a run of matches.
pub open spec fn all_capture_texts(v: Seq<Vec<Option<String>>>) -> Seq<Seq<Option<Seq<char>>>> {
    v.map_values(|c: Vec<Option<String>>| group_texts(c@))
}

/// Calls `Regex::new`. Trusted: it succeeds on exactly the patterns that
/// the crate accepts, and the matcher it returns remembers the pattern it
/// was given.
#[verifier::external_body]
pub(crate) fn compile(pattern: &str) -> (r: Result<Regex, regex::Error>)
    ensures
        r is Ok <==> regex_compiles(pattern@),
        r matches Ok(re) ==> regex_pattern(re) == pattern@,
{
    Regex::new(pattern)
}

/// Calls `Regex::find_iter` and collects the text of each match. Trusted:
/// the result is what the matcher's pattern finds in `haystack`.
#[verifier::external_body]
pub(crate) fn find_all(re: &Regex, haystack: &str) -> (r: Vec<String>)
    ensures
        texts(r@) == regex_find_all(regex_pattern(*re), haystack@),
{
    re.find_iter(haystack).map(|m| m.as_str().to_string()).collect()
}

/// Calls `Regex::captures` and collects the text of each group of the
/// first match. Trusted: the result is what the matcher's pattern captures
/// in `haystack`.
#[verifier::external_body]
pub(crate) fn captures(re: &Regex, haystack: &str) -> (r: Option<Vec<Option<String>>>)
    ensures
        capture_texts(r) == regex_captures(regex_pattern(*re), haystack@),
{
    re.captures(haystack).map(|c| c.iter().map(|g| g.map(|m| m.as_str().to_string())).collect())
}

/// Calls `Regex::captures_iter` and collects the text of each group of
/// each match. Trusted: the result is what the matcher's pattern captures
/// in `haystack`, match by match.
#[verifier::external_body]
pub(crate) fn captures_all(re: &Regex, haystack: &str) -> (r: Vec<Vec<Option<String>>>)
    ensures
        all_capture_texts(r@) == regex_captures_all(regex_pattern(*re), haystack@),
{
    re.captures_iter(haystack).map(|c| c.iter().map(|g| g.map(|m| m.as_str().to_string())).collect()).collect()
}

/// Segments one row into tokens: a hexadecimal literal, a decimal literal,
/// an identifier with its parenthesized argument list, or a bare
/// identifier, tried in that order at each position.
pub const TOKEN_PATTERN: &'static str = "\\b0x[0-9A-Fa-f]+\\b|\\b\\d+\\b|\\b\\w+\\b\\([^)]*\\)|\\b\\w+\\b";

/// The descriptor of the secondary clock domain, capturing its inner value.
pub const DESCRIPTOR_PATTERN: &'static str = "L2\\((\\d+)\\)";

/// One entry of the side table that names the tier of each block,
/// capturing the speed bin, the tier designator and the block's name.
pub const TIER_MAP_PATTERN: &'static str = "\\[\\s*(.*?)\\s*\\]\\[\\s*(.*?)\\s*\\]\\s*=\\s*\\{\\s*([a-zA-Z_][a-zA-Z0-9_]*)\\s*";

/// One table declaration, capturing its row list.
pub const TABLE_PATTERN: &'static str = "static struct acpu_level .* __initdata = \\{([\\s\\S]*?)\\};";

/// One row of a table's row list.
pub const ROW_PATTERN: &'static str = "\\s*\\d+,\\s*\\{\\s*[^}]+\\s*\\},\\s*\\w+\\(\\d+\\),\\s*\\d+";

/// The matchers of every stage, compiled once and passed by reference.
pub struct Matchers {
    pub tokens: Regex,
    pub descriptor: Regex,
    pub tier_map: Regex,
    pub table: Regex,
    pub row: Regex,
}

/// Whether the pattern compiler accepts all five fixed patterns.
pub open spec fn patterns_compile() -> bool {
    &&& regex_compiles(TOKEN_PATTERN@)
    &&& regex_compiles(DESCRIPTOR_PATTERN@)
    &&& regex_compiles(TIER_MAP_PATTERN@)
    &&& regex_compiles(TABLE_PATTERN@)
    &&& regex_compiles(ROW_PATTERN@)
}

/// Compiles one pattern, reporting a rejection as this crate's error.
pub fn compile_pattern(pattern: &str) -> (r: Result<Regex, ParseError>)
    ensures
        r is Ok <==> regex_compiles(pattern@),
        r matches Ok(re) ==> regex_pattern(re) == pattern@,
        r matches Err(e) ==> e == ParseError::InvalidPattern,
{
    match compile(pattern) {
        Ok(re) => Ok(re),
        Err(_) => Err(ParseError::InvalidPattern),
    }
}

impl Matchers {
    /// Each matcher was compiled from the pattern of its stage.
    pub open spec fn wf(&self) -> bool {
        &&& regex_pattern(self.tokens) == TOKEN_PATTERN@
        &&& regex_pattern(self.descriptor) == DESCRIPTOR_PATTERN@
        &&& regex_pattern(self.tier_map) == TIER_MAP_PATTERN@
        &&& regex_pattern(self.table) == TABLE_PATTERN@
        &&& regex_pattern(self.row) == ROW_PATTERN@
    }

    /// Compiles the five fixed patterns.
    pub fn new() -> (r: Result<Matchers, ParseError>)
        ensures
            r is Ok <==> patterns_compile(),
            r matches Ok(m) ==> m.wf(),
            r matches Err(e) ==> e == ParseError::InvalidPattern,
    {
        let tokens = compile_pattern(TOKEN_PATTERN)?;
        let descriptor = compile_pattern(DESCRIPTOR_PATTERN)?;
        let tier_map = compile_pattern(TIER_MAP_PATTERN)?;
        let table = compile_pattern(TABLE_PATTERN)?;
        let row = compile_pattern(ROW_PATTERN)?;
        Ok(Matchers { tokens, descriptor, tier_map, table, row })
    }
}

} // verus!
