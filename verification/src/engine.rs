//! The boundary to the external regular-expression engine.
//!
//! Everything the library asks of the `regex` crate passes through this
//! module. The engine's results are deterministic functions of the pattern
//! and the haystack alone, but far too intricate to restate here; each one
//! is therefore given an uninterpreted name, and every wrapper promises no
//! more than that its call returns the named value.

use vstd::prelude::*;
use vstd::string::StringSliceAdditionalSpecFns;

use crate::pattern::{Captures, Match};

verus! {

#[verifier::external_type_specification]
#[verifier::external_body]
pub struct ExRegex(regex::Regex);

#[verifier::external_type_specification]
#[verifier::external_body]
pub struct ExRegexSet(regex::RegexSet);

#[verifier::external_type_specification]
#[verifier::external_body]
pub struct ExRegexError(regex::Error);

/// Whether the engine's parser accepts this source string: the syntax
/// check that the single-pattern and the set compiler share, applied with
/// the same configuration in both build paths.
pub uninterp spec fn pattern_parses(p: Seq<char>) -> bool;

/// The conditions beyond parsing under which the single-pattern compiler
/// accepts the pattern (its compiled-size limit). These are specific to
/// compiling the pattern on its own: the set compiler has its own,
/// unrelated, set-wide conditions.
pub uninterp spec fn pattern_builds(p: Seq<char>) -> bool;

/// Whether the engine accepts this source string as a pattern: exactly the
/// condition under which `regex::Regex::new` returns `Ok` — the parser
/// accepts it and the compiled pattern stays within the engine's limits.
pub open spec fn pattern_ok(p: Seq<char>) -> bool {
    pattern_parses(p) && pattern_builds(p)
}

/// The source string a compiled pattern was built from.
pub uninterp spec fn source_of(re: regex::Regex) -> Seq<char>;

/// What `regex::Regex::is_match` returns for this pattern and haystack.
pub uninterp spec fn engine_is_match(p: Seq<char>, h: Seq<char>) -> bool;

/// What `regex::Regex::find` returns: the first match as its byte span and
/// matched text, or nothing.
pub uninterp spec fn engine_find(p: Seq<char>, h: Seq<char>) -> Option<(usize, usize, Seq<char>)>;

/// What `regex::Regex::find_at` returns when the search starts at the
/// given byte offset.
pub uninterp spec fn engine_find_at(p: Seq<char>, h: Seq<char>, start: usize) -> Option<
    (usize, usize, Seq<char>),
>;

/// What `regex::Regex::find_iter` yields in order: every non-overlapping
/// match in the haystack.
pub uninterp spec fn engine_find_all(p: Seq<char>, h: Seq<char>) -> Seq<(usize, usize, Seq<char>)>;

/// What `regex::Regex::split` yields in order: the substrings between
/// matches.
pub uninterp spec fn engine_split(p: Seq<char>, h: Seq<char>) -> Seq<Seq<char>>;

/// What `regex::Regex::replace` returns: the haystack with the first
/// match replaced.
pub uninterp spec fn engine_replace(p: Seq<char>, h: Seq<char>, rep: Seq<char>) -> Seq<char>;

/// What `regex::Regex::replace_all` returns: the haystack with every
/// match replaced.
pub uninterp spec fn engine_replace_all(p: Seq<char>, h: Seq<char>, rep: Seq<char>) -> Seq<char>;

/// What `regex::Regex::captures` returns: for the first match, each
/// capture group's span and text, or nothing for groups that did not
/// participate.
pub uninterp spec fn engine_captures(p: Seq<char>, h: Seq<char>) -> Option<
    Seq<Option<(usize, usize, Seq<char>)>>,
>;

/// What `regex::Regex::captures_iter` yields in order: the capture groups
/// of every non-overlapping match.
pub uninterp spec fn engine_captures_all(p: Seq<char>, h: Seq<char>) -> Seq<
    Seq<Option<(usize, usize, Seq<char>)>>,
>;

/// What `regex::Regex::capture_names` yields in order: one entry per
/// capture group, named or not.
pub uninterp spec fn engine_capture_names(p: Seq<char>) -> Seq<Option<Seq<char>>>;

/// The set-wide part of whether the engine accepts a sequence of patterns
/// as one compiled set (for example the size limit over the whole set).
pub uninterp spec fn set_compiles(ps: Seq<Seq<char>>) -> bool;

/// Whether `regex::RegexSet::new` accepts this whole sequence of patterns.
/// The set compiler parses every member with the same syntax
/// configuration as the single-pattern compiler and rejects the whole set
/// when any member fails to parse; `set_compiles` covers the set-wide
/// conditions beyond parsing. Note that a member that parses but exceeds
/// the single-pattern size limit does not by itself decide the set: the
/// set's own limits are a separate condition.
pub open spec fn set_ok(ps: Seq<Seq<char>>) -> bool {
    &&& set_compiles(ps)
    &&& forall|i: int| 0 <= i < ps.len() ==> pattern_parses(ps[i])
}

/// The source strings a compiled pattern set was built from, in order.
pub uninterp spec fn set_source_of(rs: regex::RegexSet) -> Seq<Seq<char>>;

/// What `regex::RegexSet::is_match` returns for this pattern set and
/// haystack.
pub uninterp spec fn engine_set_is_match(ps: Seq<Seq<char>>, h: Seq<char>) -> bool;

/// What `regex::RegexSet::matches` yields: the indices of the member
/// patterns that match the haystack, in ascending order.
pub uninterp spec fn engine_set_matches(ps: Seq<Seq<char>>, h: Seq<char>) -> Seq<usize>;

/// Relies on `regex::Regex::new`: compiles the pattern, succeeding exactly
/// when the engine accepts it — the parser takes the source and the
/// compiled pattern stays within the limits — and the compiled pattern
/// remembers its source string.
#[verifier::external_body]
pub(crate) fn compile(pattern: &str) -> (r: Result<regex::Regex, regex::Error>)
    ensures
        r is Ok <==> pattern_ok(pattern@),
        r is Ok ==> pattern_parses(pattern@) && pattern_builds(pattern@),
        r matches Ok(re) ==> source_of(re) == pattern@,
{
    regex::Regex::new(pattern)
}

/// Relies on `regex::Regex::clone`: the clone is built from the same
/// source pattern as the original.
#[verifier::external_body]
pub(crate) fn raw_clone(re: &regex::Regex) -> (r: regex::Regex)
    ensures
        source_of(r) == source_of(*re),
{
    re.clone()
}

/// Relies on `regex::Regex::is_match`: the result depends on the pattern
/// and the haystack alone.
#[verifier::external_body]
pub(crate) fn raw_is_match(re: &regex::Regex, haystack: &str) -> (r: bool)
    ensures
        r == engine_is_match(source_of(*re), haystack@),
{
    re.is_match(haystack)
}

/// Relies on `regex::Regex::find`: the first match, converted to its byte
/// span and matched text. A match exists exactly when `is_match` is true,
/// and its span lies within the haystack.
#[verifier::external_body]
pub(crate) fn raw_find(re: &regex::Regex, haystack: &str) -> (r: Option<Match>)
    ensures
        match r {
            Some(m) => engine_find(source_of(*re), haystack@) == Some(m@),
            None => engine_find(source_of(*re), haystack@) is None,
        },
        r is Some <==> engine_is_match(source_of(*re), haystack@),
        r matches Some(m) ==> m@.0 <= m@.1 <= haystack.spec_bytes().len(),
{
    re.find(haystack).map(
        |m| Match { start: m.start(), end: m.end(), text: String::from(m.as_str()) },
    )
}

/// Relies on `regex::Regex::find_at`: the first match at or after the
/// given byte offset; at offset zero it returns the same as `find`. A
/// returned match begins at or after the offset and its span lies within
/// the haystack. The engine panics when the offset exceeds the haystack's
/// byte length, so that input is excluded.
#[verifier::external_body]
pub(crate) fn raw_find_at(re: &regex::Regex, haystack: &str, start: usize) -> (r: Option<Match>)
    requires
        start <= haystack.spec_bytes().len(),
    ensures
        match r {
            Some(m) => engine_find_at(source_of(*re), haystack@, start) == Some(m@),
            None => engine_find_at(source_of(*re), haystack@, start) is None,
        },
        start == 0 ==> match r {
            Some(m) => engine_find(source_of(*re), haystack@) == Some(m@),
            None => engine_find(source_of(*re), haystack@) is None,
        },
        r matches Some(m) ==> start <= m@.0 && m@.0 <= m@.1 <= haystack.spec_bytes().len(),
{
    re.find_at(haystack, start).map(
        |m| Match { start: m.start(), end: m.end(), text: String::from(m.as_str()) },
    )
}

/// Relies on `regex::Regex::find_iter`: every non-overlapping match, in
/// order, converted to byte spans and matched text.
#[verifier::external_body]
pub(crate) fn raw_find_iter(re: &regex::Regex, haystack: &str) -> (r: Vec<Match>)
    ensures
        r@.map_values(|m: Match| m@) == engine_find_all(source_of(*re), haystack@),
{
    re.find_iter(haystack).map(
        |m| Match { start: m.start(), end: m.end(), text: String::from(m.as_str()) },
    ).collect()
}

/// Relies on `regex::Regex::split`: the substrings of the haystack
/// between matches, in order — one piece before each match and one final
/// remainder, so one more piece than there are matches.
#[verifier::external_body]
pub(crate) fn raw_split(re: &regex::Regex, haystack: &str) -> (r: Vec<String>)
    ensures
        r@.map_values(|s: String| s@) == engine_split(source_of(*re), haystack@),
        r@.len() == engine_find_all(source_of(*re), haystack@).len() + 1,
{
    re.split(haystack).map(String::from).collect()
}

/// Relies on `regex::Regex::replace`: the haystack with the first match
/// replaced according to the replacement string; when no match is found
/// the haystack is returned unchanged.
#[verifier::external_body]
pub(crate) fn raw_replace(re: &regex::Regex, haystack: &str, rep: &str) -> (r: String)
    ensures
        r@ == engine_replace(source_of(*re), haystack@, rep@),
        !engine_is_match(source_of(*re), haystack@) ==> r@ == haystack@,
{
    re.replace(haystack, rep).into_owned()
}

/// Relies on `regex::Regex::replace_all`: the haystack with every match
/// replaced according to the replacement string; when no match is found
/// the haystack is returned unchanged.
#[verifier::external_body]
pub(crate) fn raw_replace_all(re: &regex::Regex, haystack: &str, rep: &str) -> (r: String)
    ensures
        r@ == engine_replace_all(source_of(*re), haystack@, rep@),
        !engine_is_match(source_of(*re), haystack@) ==> r@ == haystack@,
{
    re.replace_all(haystack, rep).into_owned()
}

/// Relies on `regex::Regex::captures`: the capture groups of the first
/// match, each converted to its span and text, in group order. Capture
/// groups exist exactly when `is_match` is true; group zero is the whole
/// match, the same one `find` returns.
#[verifier::external_body]
pub(crate) fn raw_captures(re: &regex::Regex, haystack: &str) -> (r: Option<Captures>)
    ensures
        match r {
            Some(c) => engine_captures(source_of(*re), haystack@) == Some(c@),
            None => engine_captures(source_of(*re), haystack@) is None,
        },
        r is Some <==> engine_is_match(source_of(*re), haystack@),
        r matches Some(c) ==> c@.len() > 0 && c@[0] == engine_find(source_of(*re), haystack@),
{
    re.captures(haystack).map(
        |caps| Captures {
            groups: caps.iter().map(
                |g| g.map(
                    |m| Match { start: m.start(), end: m.end(), text: String::from(m.as_str()) },
                ),
            ).collect(),
        },
    )
}

/// Relies on `regex::Regex::captures_iter`: the capture groups of every
/// non-overlapping match, in order — one entry per match of `find_iter`,
/// whose group zero is that match.
#[verifier::external_body]
pub(crate) fn raw_captures_iter(re: &regex::Regex, haystack: &str) -> (r: Vec<Captures>)
    ensures
        r@.map_values(|c: Captures| c@) == engine_captures_all(source_of(*re), haystack@),
        r@.len() == engine_find_all(source_of(*re), haystack@).len(),
        forall|i: int|
            0 <= i < r@.len() ==> (#[trigger] r@[i])@.len() > 0 && r@[i]@[0] == Some(
                engine_find_all(source_of(*re), haystack@)[i],
            ),
{
    re.captures_iter(haystack).map(
        |caps| Captures {
            groups: caps.iter().map(
                |g| g.map(
                    |m| Match { start: m.start(), end: m.end(), text: String::from(m.as_str()) },
                ),
            ).collect(),
        },
    ).collect()
}

/// Relies on `regex::Regex::capture_names`: one entry per capture group
/// in the pattern, carrying the group's name where it has one.
#[verifier::external_body]
pub(crate) fn raw_capture_names(re: &regex::Regex) -> (r: Vec<Option<String>>)
    ensures
        r@.map_values(|o: Option<String>| o.deep_view()) == engine_capture_names(source_of(*re)),
{
    re.capture_names().map(|o| o.map(String::from)).collect()
}

/// Relies on `regex::RegexSet::new`: compiles the whole sequence of
/// patterns into one set, succeeding exactly when the engine accepts it,
/// and the compiled set remembers its source strings.
#[verifier::external_body]
pub(crate) fn compile_set(patterns: &Vec<String>) -> (r: Result<regex::RegexSet, regex::Error>)
    ensures
        r is Ok <==> set_ok(patterns@.map_values(|p: String| p@)),
        r is Ok ==> set_compiles(patterns@.map_values(|p: String| p@)),
        r matches Ok(rs) ==> set_source_of(rs) == patterns@.map_values(|p: String| p@),
{
    regex::RegexSet::new(patterns)
}

/// Relies on `regex::RegexSet::clone`: the clone is built from the same
/// source patterns as the original.
#[verifier::external_body]
pub(crate) fn raw_set_clone(rs: &regex::RegexSet) -> (r: regex::RegexSet)
    ensures
        set_source_of(r) == set_source_of(*rs),
{
    rs.clone()
}

/// Relies on `regex::RegexSet::is_match`: true exactly when at least one
/// member pattern matches the haystack on its own.
#[verifier::external_body]
pub(crate) fn raw_set_is_match(rs: &regex::RegexSet, haystack: &str) -> (r: bool)
    ensures
        r == engine_set_is_match(set_source_of(*rs), haystack@),
        r <==> (exists|i: int|
            0 <= i < set_source_of(*rs).len() && engine_is_match(
                set_source_of(*rs)[i],
                haystack@,
            )),
{
    rs.is_match(haystack)
}

/// Relies on `regex::RegexSet::matches`: exactly the indices of the
/// member patterns that match the haystack on their own — each below the
/// pattern count, in strictly ascending order, and some index is present
/// exactly when the set's own existence test is true.
#[verifier::external_body]
pub(crate) fn raw_set_matches(rs: &regex::RegexSet, haystack: &str) -> (r: Vec<usize>)
    ensures
        r@ == engine_set_matches(set_source_of(*rs), haystack@),
        forall|i: int| 0 <= i < r@.len() ==> (#[trigger] r@[i]) < set_source_of(*rs).len(),
        forall|i: int, j: int| 0 <= i < j < r@.len() ==> r@[i] < r@[j],
        forall|k: usize|
            0 <= k < set_source_of(*rs).len() ==> (r@.contains(k) <==> engine_is_match(
                set_source_of(*rs)[k as int],
                haystack@,
            )),
        r@.len() > 0 <==> engine_set_is_match(set_source_of(*rs), haystack@),
{
    rs.matches(haystack).into_iter().collect()
}

} // verus!
