//! The fault-tolerant single-pattern matcher.
//!
//! A [`ToleratingPattern`] either holds a compiled pattern and delegates every query
//! to the engine, or holds nothing and answers every query with the fixed
//! "no match" value. Which of the two it holds is decided once, at
//! construction, and never changes.

use vstd::prelude::*;
use vstd::string::StringExecFns;
use vstd::string::StringSliceAdditionalSpecFns;

use crate::engine;
use crate::engine::{
    engine_capture_names, engine_captures, engine_captures_all, engine_find, engine_find_all,
    engine_find_at, engine_is_match, engine_replace, engine_replace_all, engine_split, pattern_ok,
};
use crate::lazy::OptionIter;
use crate::policy::{CompileError, Policy};

verus! {

/// One match of a pattern in a haystack: the byte offsets of its span and
/// the matched text.
#[derive(Clone, Debug, PartialEq, Eq)]
pub struct Match {
    /// Byte offset of the start of the match in the haystack.
    pub start: usize,
    /// Byte offset one past the end of the match in the haystack.
    pub end: usize,
    /// The matched substring of the haystack.
    pub text: String,
}

impl View for Match {
    type V = (usize, usize, Seq<char>);

    open spec fn view(&self) -> (usize, usize, Seq<char>) {
        (self.start, self.end, self.text@)
    }
}

/// The capture groups of one match: one entry per group in the pattern,
/// in group order, starting with the overall match; `None` for a group
/// that did not participate in the match.
#[derive(Clone, Debug, PartialEq, Eq)]
pub struct Captures {
    /// The groups, indexed as in the pattern; group 0 is the whole match.
    pub groups: Vec<Option<Match>>,
}

impl View for Captures {
    type V = Seq<Option<(usize, usize, Seq<char>)>>;

    open spec fn view(&self) -> Seq<Option<(usize, usize, Seq<char>)>> {
        self.groups@.map_values(
            |g: Option<Match>| match g {
                Some(m) => Some(m@),
                None => None,
            },
        )
    }
}

/// What a query sees of a pattern object: the source of the compiled
/// pattern when one is present, or nothing when construction was
/// tolerated as invalid.
///
/// The spec functions below give, for each query, the single value the
/// query must return in each of the two states.
pub open spec fn spec_is_match(state: Option<Seq<char>>, h: Seq<char>) -> bool {
    match state {
        Some(p) => engine_is_match(p, h),
        None => false,
    }
}

/// The first match, or nothing: absent patterns find nothing.
pub open spec fn spec_find(state: Option<Seq<char>>, h: Seq<char>) -> Option<
    (usize, usize, Seq<char>),
> {
    match state {
        Some(p) => engine_find(p, h),
        None => None,
    }
}

/// The first match at or after a byte offset, or nothing.
pub open spec fn spec_find_at(state: Option<Seq<char>>, h: Seq<char>, start: usize) -> Option<
    (usize, usize, Seq<char>),
> {
    match state {
        Some(p) => engine_find_at(p, h, start),
        None => None,
    }
}

/// Every match in order: absent patterns yield the empty sequence.
pub open spec fn spec_find_all(state: Option<Seq<char>>, h: Seq<char>) -> Seq<
    (usize, usize, Seq<char>),
> {
    match state {
        Some(p) => engine_find_all(p, h),
        None => Seq::empty(),
    }
}

/// The substrings between matches: absent patterns yield the empty
/// sequence.
pub open spec fn spec_split(state: Option<Seq<char>>, h: Seq<char>) -> Seq<Seq<char>> {
    match state {
        Some(p) => engine_split(p, h),
        None => Seq::empty(),
    }
}

/// The pattern's source text: the literal `"invalid"` when absent.
pub open spec fn spec_source(state: Option<Seq<char>>) -> Seq<char> {
    match state {
        Some(p) => p,
        None => "invalid"@,
    }
}

/// The haystack with the first match replaced: absent patterns leave it
/// unchanged.
pub open spec fn spec_replace(state: Option<Seq<char>>, h: Seq<char>, rep: Seq<char>) -> Seq<
    char,
> {
    match state {
        Some(p) => engine_replace(p, h, rep),
        None => h,
    }
}

/// The haystack with every match replaced: absent patterns leave it
/// unchanged.
pub open spec fn spec_replace_all(state: Option<Seq<char>>, h: Seq<char>, rep: Seq<char>) -> Seq<
    char,
> {
    match state {
        Some(p) => engine_replace_all(p, h, rep),
        None => h,
    }
}

/// The capture groups of the first match: absent patterns capture
/// nothing.
pub open spec fn spec_captures(state: Option<Seq<char>>, h: Seq<char>) -> Option<
    Seq<Option<(usize, usize, Seq<char>)>>,
> {
    match state {
        Some(p) => engine_captures(p, h),
        None => None,
    }
}

/// The capture groups of every match: absent patterns yield the empty
/// sequence.
pub open spec fn spec_captures_all(state: Option<Seq<char>>, h: Seq<char>) -> Seq<
    Seq<Option<(usize, usize, Seq<char>)>>,
> {
    match state {
        Some(p) => engine_captures_all(p, h),
        None => Seq::empty(),
    }
}

/// The capture-group slots of the pattern: absent patterns have none.
pub open spec fn spec_capture_names(state: Option<Seq<char>>) -> Seq<Option<Seq<char>>> {
    match state {
        Some(p) => engine_capture_names(p),
        None => Seq::empty(),
    }
}

/// A single pattern that tolerates invalid source strings.
///
/// Construction either compiles the source or — under the tolerant
/// policy — degrades into a permanently inert matcher. The view of a
/// `ToleratingPattern` is `Some(source)` when a compiled pattern is present and
/// `None` when it is absent; every query's contract is stated over that
/// view through the `spec_` functions of this module.
pub struct ToleratingPattern {
    compiled: Option<regex::Regex>,
    source: String,
}

impl Clone for ToleratingPattern {
    /// The clone is in the same state as the original: compiled from the
    /// same source, or equally degraded.
    fn clone(&self) -> (r: Self)
        ensures
            r@ == self@,
    {
        proof {
            use_type_invariant(&*self);
        }
        match &self.compiled {
            Some(re) => ToleratingPattern {
                compiled: Some(engine::raw_clone(re)),
                source: String::from_str(self.source.as_str()),
            },
            None => ToleratingPattern {
                compiled: None,
                source: String::from_str(self.source.as_str()),
            },
        }
    }
}

impl View for ToleratingPattern {
    type V = Option<Seq<char>>;

    closed spec fn view(&self) -> Option<Seq<char>> {
        match self.compiled {
            Some(re) => Some(engine::source_of(re)),
            None => None,
        }
    }
}

impl ToleratingPattern {
    /// The stored source text agrees with the state: the compiled
    /// pattern's own source when present, the literal `"invalid"` when
    /// absent.
    #[verifier::type_invariant]
    closed spec fn wf(&self) -> bool {
        match self.compiled {
            Some(re) => self.source@ == engine::source_of(re),
            None => self.source@ == "invalid"@,
        }
    }

    /// Attempt to compile `re`. A valid pattern compiles under either
    /// policy. An invalid pattern is an error under [`Policy::Strict`];
    /// under [`Policy::Tolerant`] construction still succeeds and the
    /// object is degraded: inert for every later query.
    pub fn new(re: &str, policy: Policy) -> (r: Result<ToleratingPattern, CompileError>)
        ensures
            r is Ok <==> (pattern_ok(re@) || policy is Tolerant),
            r matches Ok(p) ==> p@ == (if pattern_ok(re@) {
                Some(re@)
            } else {
                None::<Seq<char>>
            }),
    {
        match engine::compile(re) {
            Ok(c) => Ok(ToleratingPattern { compiled: Some(c), source: String::from_str(re) }),
            Err(e) => match policy {
                Policy::Tolerant => Ok(
                    ToleratingPattern { compiled: None, source: String::from_str("invalid") },
                ),
                Policy::Strict => Err(CompileError { inner: e }),
            },
        }
    }

    /// Whether the pattern matches anywhere in the haystack; `false`
    /// when the pattern is absent.
    pub fn is_match(&self, haystack: &str) -> (r: bool)
        ensures
            r == spec_is_match(self@, haystack@),
    {
        match &self.compiled {
            Some(re) => engine::raw_is_match(re, haystack),
            None => false,
        }
    }

    /// The first match in the haystack; "not found" when the pattern is
    /// absent. A match is found exactly when `is_match` is true, and its
    /// span lies within the haystack.
    pub fn find(&self, haystack: &str) -> (r: Option<Match>)
        ensures
            r matches Some(m) ==> spec_find(self@, haystack@) == Some(m@),
            r is None ==> spec_find(self@, haystack@) is None,
            r is Some <==> spec_is_match(self@, haystack@),
            r matches Some(m) ==> m@.0 <= m@.1 <= haystack.spec_bytes().len(),
    {
        match &self.compiled {
            Some(re) => engine::raw_find(re, haystack),
            None => None,
        }
    }

    /// The first match at or after the byte offset `start`; "not found"
    /// when the pattern is absent, whatever the offset. When a pattern is
    /// present the offset must lie within the haystack, whose byte length
    /// bounds it. At offset zero the result is the same as `find`'s, and
    /// a returned match begins at or after the offset, within the
    /// haystack.
    pub fn find_at(&self, haystack: &str, start: usize) -> (r: Option<Match>)
        requires
            self@ is Some ==> start <= haystack.spec_bytes().len(),
        ensures
            r matches Some(m) ==> spec_find_at(self@, haystack@, start) == Some(m@),
            r is None ==> spec_find_at(self@, haystack@, start) is None,
            start == 0 ==> match r {
                Some(m) => spec_find(self@, haystack@) == Some(m@),
                None => spec_find(self@, haystack@) is None,
            },
            r matches Some(m) ==> start <= m@.0 && m@.0 <= m@.1 <= haystack.spec_bytes().len(),
    {
        match &self.compiled {
            Some(re) => engine::raw_find_at(re, haystack, start),
            None => None,
        }
    }

    /// Every match in the haystack, in order, as a lazy sequence; empty
    /// when the pattern is absent.
    pub fn find_iter(&self, haystack: &str) -> (r: OptionIter<Match>)
        ensures
            r@.map_values(|m: Match| m@) == spec_find_all(self@, haystack@),
    {
        match &self.compiled {
            Some(re) => OptionIter::some(engine::raw_find_iter(re, haystack)),
            None => {
                let r = OptionIter::none();
                proof {
                    assert(r@.map_values(|m: Match| m@) =~= Seq::<
                        (usize, usize, Seq<char>),
                    >::empty());
                }
                r
            },
        }
    }

    /// The substrings of the haystack between matches, in order, as a
    /// lazy sequence — for a present pattern, one piece before each match
    /// and one final remainder, so one more piece than there are matches;
    /// empty when the pattern is absent.
    pub fn split(&self, haystack: &str) -> (r: OptionIter<String>)
        ensures
            r@.map_values(|s: String| s@) == spec_split(self@, haystack@),
            self@ is Some ==> r@.len() == spec_find_all(self@, haystack@).len() + 1,
    {
        match &self.compiled {
            Some(re) => OptionIter::some(engine::raw_split(re, haystack)),
            None => {
                let r = OptionIter::none();
                proof {
                    assert(r@.map_values(|s: String| s@) =~= Seq::<Seq<char>>::empty());
                }
                r
            },
        }
    }

    /// The pattern's source text; the literal `"invalid"` when the
    /// pattern is absent.
    pub fn as_str(&self) -> (r: &str)
        ensures
            r@ == spec_source(self@),
    {
        proof {
            use_type_invariant(&*self);
        }
        self.source.as_str()
    }

    /// The haystack with the first match replaced by `rep`; unchanged
    /// when the pattern is absent, and unchanged whenever nothing
    /// matches.
    pub fn replace(&self, haystack: &str, rep: &str) -> (r: String)
        ensures
            r@ == spec_replace(self@, haystack@, rep@),
            !spec_is_match(self@, haystack@) ==> r@ == haystack@,
    {
        match &self.compiled {
            Some(re) => engine::raw_replace(re, haystack, rep),
            None => String::from_str(haystack),
        }
    }

    /// The haystack with every match replaced by `rep`; unchanged when
    /// the pattern is absent, and unchanged whenever nothing matches.
    pub fn replace_all(&self, haystack: &str, rep: &str) -> (r: String)
        ensures
            r@ == spec_replace_all(self@, haystack@, rep@),
            !spec_is_match(self@, haystack@) ==> r@ == haystack@,
    {
        match &self.compiled {
            Some(re) => engine::raw_replace_all(re, haystack, rep),
            None => String::from_str(haystack),
        }
    }

    /// The capture groups of the first match; "no captures" when the
    /// pattern is absent. Captures exist exactly when `is_match` is true;
    /// group zero is the whole match, the same one `find` returns.
    pub fn captures(&self, haystack: &str) -> (r: Option<Captures>)
        ensures
            r matches Some(c) ==> spec_captures(self@, haystack@) == Some(c@),
            r is None ==> spec_captures(self@, haystack@) is None,
            r is Some <==> spec_is_match(self@, haystack@),
            r matches Some(c) ==> c@.len() > 0 && c@[0] == spec_find(self@, haystack@),
    {
        match &self.compiled {
            Some(re) => engine::raw_captures(re, haystack),
            None => None,
        }
    }

    /// The capture groups of every match, in order, as a lazy sequence;
    /// empty when the pattern is absent. The iteration parallels
    /// `find_iter`: one entry per match, whose group zero is that match.
    pub fn captures_iter(&self, haystack: &str) -> (r: OptionIter<Captures>)
        ensures
            r@.map_values(|c: Captures| c@) == spec_captures_all(self@, haystack@),
            r@.len() == spec_find_all(self@, haystack@).len(),
            forall|i: int|
                0 <= i < r@.len() ==> (#[trigger] r@[i])@.len() > 0 && r@[i]@[0] == Some(
                    spec_find_all(self@, haystack@)[i],
                ),
    {
        match &self.compiled {
            Some(re) => OptionIter::some(engine::raw_captures_iter(re, haystack)),
            None => {
                let r = OptionIter::none();
                proof {
                    assert(r@.map_values(|c: Captures| c@) =~= Seq::<
                        Seq<Option<(usize, usize, Seq<char>)>>,
                    >::empty());
                }
                r
            },
        }
    }

    /// The capture-group slots of the pattern, named or not, as a lazy
    /// sequence; empty when the pattern is absent.
    pub fn capture_names(&self) -> (r: OptionIter<Option<String>>)
        ensures
            r@.map_values(|o: Option<String>| o.deep_view()) == spec_capture_names(self@),
    {
        match &self.compiled {
            Some(re) => OptionIter::some(engine::raw_capture_names(re)),
            None => {
                let r = OptionIter::none();
                proof {
                    assert(r@.map_values(|o: Option<String>| o.deep_view()) =~= Seq::<
                        Option<Seq<char>>,
                    >::empty());
                }
                r
            },
        }
    }
}

/// Law: a pattern object whose compiled handle is present delegates
/// exactly — on a compiled state, every query's value is the engine's own
/// result for that pattern and haystack, and the source text is the
/// original pattern.
pub proof fn lemma_present_delegates(p: Seq<char>, h: Seq<char>, rep: Seq<char>, start: usize)
    ensures
        spec_is_match(Some(p), h) == engine_is_match(p, h),
        spec_find(Some(p), h) == engine_find(p, h),
        spec_find_at(Some(p), h, start) == engine_find_at(p, h, start),
        spec_find_all(Some(p), h) == engine_find_all(p, h),
        spec_split(Some(p), h) == engine_split(p, h),
        spec_source(Some(p)) == p,
        spec_replace(Some(p), h, rep) == engine_replace(p, h, rep),
        spec_replace_all(Some(p), h, rep) == engine_replace_all(p, h, rep),
        spec_captures(Some(p), h) == engine_captures(p, h),
        spec_captures_all(Some(p), h) == engine_captures_all(p, h),
        spec_capture_names(Some(p)) == engine_capture_names(p),
{
}

/// Law: a degraded pattern object is permanently inert — on an absent
/// state, whatever the haystack and replacement, every query returns the
/// fixed "nothing happened" value: no match, nothing found, empty
/// sequences, the source text `"invalid"`, and the haystack unchanged.
pub proof fn lemma_degraded_inert(h: Seq<char>, rep: Seq<char>, start: usize)
    ensures
        !spec_is_match(None::<Seq<char>>, h),
        spec_find(None::<Seq<char>>, h) is None,
        spec_find_at(None::<Seq<char>>, h, start) is None,
        spec_find_all(None::<Seq<char>>, h) == Seq::<(usize, usize, Seq<char>)>::empty(),
        spec_split(None::<Seq<char>>, h) == Seq::<Seq<char>>::empty(),
        spec_source(None::<Seq<char>>) == "invalid"@,
        spec_replace(None::<Seq<char>>, h, rep) == h,
        spec_replace_all(None::<Seq<char>>, h, rep) == h,
        spec_captures(None::<Seq<char>>, h) is None,
        spec_captures_all(None::<Seq<char>>, h) == Seq::<
            Seq<Option<(usize, usize, Seq<char>)>>,
        >::empty(),
        spec_capture_names(None::<Seq<char>>) == Seq::<Option<Seq<char>>>::empty(),
{
}

/// Law: queries are idempotent — each query's result is a function of
/// the object's state and its arguments alone, so any two results of the
/// same query on the same state, haystack and replacement are equal.
pub proof fn lemma_queries_idempotent(
    state: Option<Seq<char>>,
    h: Seq<char>,
    rep: Seq<char>,
    m1: bool,
    m2: bool,
    f1: Option<(usize, usize, Seq<char>)>,
    f2: Option<(usize, usize, Seq<char>)>,
    r1: Seq<char>,
    r2: Seq<char>,
)
    requires
        m1 == spec_is_match(state, h),
        m2 == spec_is_match(state, h),
        f1 == spec_find(state, h),
        f2 == spec_find(state, h),
        r1 == spec_replace_all(state, h, rep),
        r2 == spec_replace_all(state, h, rep),
    ensures
        m1 == m2,
        f1 == f2,
        r1 == r2,
{
}

} // verus!


