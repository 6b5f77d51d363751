use vstd::prelude::*;

verus! {

// The compiled pattern-set type and its error type come from the regex crate
// and are opaque here: declared so they can stand in fields and signatures.
#[verifier::external_type_specification]
#[verifier::external_body]
pub struct ExRegexSet(regex::RegexSet);

#[verifier::external_type_specification]
#[verifier::external_body]
pub struct ExRegexError(regex::Error);

/// The pattern strings a compiled set was built from.
pub uninterp spec fn set_patterns(rs: regex::RegexSet) -> Seq<Seq<char>>;

/// Whether every pattern in the sequence is a valid regular expression that
/// the engine accepts. Compilation is a function of the pattern strings alone.
pub uninterp spec fn patterns_compile(pats: Seq<Seq<char>>) -> bool;

/// Whether at least one pattern in `pats` matches `text`, with the engine's
/// unanchored regex semantics. Matching is a function of these strings alone.
pub uninterp spec fn any_pattern_matches(pats: Seq<Seq<char>>, text: Seq<char>) -> bool;

/// The views of a vector of pattern strings.
pub open spec fn pattern_views(v: Seq<String>) -> Seq<Seq<char>> {
    v.map_values(|s: String| s@)
}

/// Relies on regex::RegexSet::new: it returns Ok exactly when every given
/// pattern compiles, and the resulting set holds exactly the given patterns.
#[verifier::external_body]
pub(crate) fn regex_set_new(patterns: &Vec<String>) -> (r: Result<regex::RegexSet, regex::Error>)
    ensures
        r is Ok <==> patterns_compile(pattern_views(patterns@)),
        r matches Ok(rs) ==> set_patterns(rs) == pattern_views(patterns@),
{
    regex::RegexSet::new(patterns)
}

/// Relies on regex::RegexSet::is_match: true if and only if one of the set's
/// regexes matches the haystack.
#[verifier::external_body]
pub(crate) fn regex_set_is_match(rs: &regex::RegexSet, text: &str) -> (m: bool)
    ensures
        m == any_pattern_matches(set_patterns(*rs), text@),
{
    rs.is_match(text)
}

} // verus!
