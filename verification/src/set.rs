//! The fault-tolerant multi-pattern matcher.
//!
//! A [`ToleratingPatternSet`] is the batch sibling of the single-pattern
//! matcher: it wraps one compiled set built from an ordered sequence of
//! source strings, or nothing at all. The tolerance is all-or-nothing: a
//! single invalid source string degrades the whole set, it is never
//! thinned to its valid members.

use vstd::prelude::*;
use vstd::string::StringExecFns;

use crate::engine;
use crate::engine::{engine_is_match, engine_set_is_match, engine_set_matches, pattern_parses, set_ok};
use crate::lazy::OptionIntoIter;
use crate::policy::{CompileError, Policy};

verus! {

/// The source strings as the contracts see them: each string's view, in
/// the same order.
pub open spec fn views_of(ps: Seq<String>) -> Seq<Seq<char>> {
    ps.map_values(|p: String| p@)
}

/// Whether any member pattern matches the haystack; `false` when the set
/// is absent.
pub open spec fn spec_set_is_match(state: Option<Seq<Seq<char>>>, h: Seq<char>) -> bool {
    match state {
        Some(ps) => engine_set_is_match(ps, h),
        None => false,
    }
}

/// The indices of the member patterns that match, in ascending order;
/// empty when the set is absent.
pub open spec fn spec_set_matches(state: Option<Seq<Seq<char>>>, h: Seq<char>) -> Seq<usize> {
    match state {
        Some(ps) => engine_set_matches(ps, h),
        None => Seq::empty(),
    }
}

/// The original source strings of the set; the empty list when the set
/// is absent.
pub open spec fn spec_patterns(state: Option<Seq<Seq<char>>>) -> Seq<Seq<char>> {
    match state {
        Some(ps) => ps,
        None => Seq::empty(),
    }
}

/// An owned copy of a list of source strings, preserving each string's
/// view and the order.
fn copy_strings(v: &Vec<String>) -> (r: Vec<String>)
    ensures
        views_of(r@) == views_of(v@),
{
    let mut r: Vec<String> = Vec::new();
    let mut i: usize = 0;
    while i < v.len()
        invariant
            i <= v.len(),
            r@.len() == i,
            forall|j: int| 0 <= j < i ==> r@[j]@ == v@[j]@,
        decreases v.len() - i,
    {
        r.push(String::from_str(v[i].as_str()));
        i = i + 1;
    }
    proof {
        assert(views_of(r@) =~= views_of(v@));
    }
    r
}

/// A set of patterns that tolerates invalid source strings, as one unit.
///
/// Construction either compiles the whole ordered sequence of sources
/// into one set, or — under the tolerant policy — degrades the set as a
/// whole. The view is `Some(sources)` when the compiled set is present
/// and `None` when it is absent; every query's contract is stated over
/// that view through the `spec_` functions of this module.
pub struct ToleratingPatternSet {
    compiled: Option<regex::RegexSet>,
    sources: Vec<String>,
}

impl View for ToleratingPatternSet {
    type V = Option<Seq<Seq<char>>>;

    closed spec fn view(&self) -> Option<Seq<Seq<char>>> {
        match self.compiled {
            Some(rs) => Some(engine::set_source_of(rs)),
            None => None,
        }
    }
}

impl Clone for ToleratingPatternSet {
    /// The clone is in the same state as the original: built from the
    /// same sources, or equally degraded.
    fn clone(&self) -> (r: Self)
        ensures
            r@ == self@,
    {
        proof {
            use_type_invariant(&*self);
        }
        match &self.compiled {
            Some(rs) => ToleratingPatternSet {
                compiled: Some(engine::raw_set_clone(rs)),
                sources: copy_strings(&self.sources),
            },
            None => ToleratingPatternSet { compiled: None, sources: Vec::new() },
        }
    }
}

impl ToleratingPatternSet {
    /// The stored source strings agree with the state: the compiled
    /// set's own sources when present, the empty list when absent.
    #[verifier::type_invariant]
    closed spec fn wf(&self) -> bool {
        match self.compiled {
            Some(rs) => views_of(self.sources@) == engine::set_source_of(rs),
            None => self.sources@.len() == 0,
        }
    }

    /// Attempt to compile the whole sequence of sources into one set. A
    /// sequence the engine accepts compiles under either policy. One the
    /// engine rejects — one unparsable member suffices — is an error under
    /// [`Policy::Strict`]; under [`Policy::Tolerant`] construction still
    /// succeeds and the set as a whole is degraded: inert for every
    /// later query, with an empty pattern list.
    pub fn new(patterns: &Vec<String>, policy: Policy) -> (r: Result<
        ToleratingPatternSet,
        CompileError,
    >)
        ensures
            r is Ok <==> (set_ok(views_of(patterns@)) || policy is Tolerant),
            r matches Ok(s) ==> s@ == (if set_ok(views_of(patterns@)) {
                Some(views_of(patterns@))
            } else {
                None::<Seq<Seq<char>>>
            }),
    {
        match engine::compile_set(patterns) {
            Ok(c) => {
                let sources = copy_strings(patterns);
                Ok(ToleratingPatternSet { compiled: Some(c), sources })
            },
            Err(e) => match policy {
                Policy::Tolerant => Ok(
                    ToleratingPatternSet { compiled: None, sources: Vec::new() },
                ),
                Policy::Strict => Err(CompileError { inner: e }),
            },
        }
    }

    /// The original source strings, in order; the empty list when the
    /// set is absent.
    pub fn patterns(&self) -> (r: &Vec<String>)
        ensures
            views_of(r@) == spec_patterns(self@),
    {
        proof {
            use_type_invariant(&*self);
            assert(views_of(self.sources@) =~= spec_patterns(self@));
        }
        &self.sources
    }

    /// Whether any member pattern matches the haystack: for a present
    /// set, true exactly when some member matches on its own; `false`
    /// when the set is absent.
    pub fn is_match(&self, haystack: &str) -> (r: bool)
        ensures
            r == spec_set_is_match(self@, haystack@),
            self@ matches Some(ps) ==> (r <==> exists|i: int|
                0 <= i < ps.len() && engine_is_match(ps[i], haystack@)),
    {
        match &self.compiled {
            Some(rs) => engine::raw_set_is_match(rs, haystack),
            None => false,
        }
    }

    /// The indices of the member patterns that match the haystack, as a
    /// lazy, ownable sequence; empty when the set is absent. For a
    /// present set the sequence holds exactly the indices whose member
    /// matches on its own — each below the pattern count, in strictly
    /// ascending order — and is non-empty exactly when `is_match` is
    /// true.
    pub fn matches(&self, haystack: &str) -> (r: OptionIntoIter<usize>)
        ensures
            r@ == spec_set_matches(self@, haystack@),
            forall|i: int| 0 <= i < r@.len() ==> (#[trigger] r@[i]) < spec_patterns(self@).len(),
            forall|i: int, j: int| 0 <= i < j < r@.len() ==> r@[i] < r@[j],
            self@ matches Some(ps) ==> forall|k: usize|
                0 <= k < ps.len() ==> (r@.contains(k) <==> engine_is_match(
                    ps[k as int],
                    haystack@,
                )),
            r@.len() > 0 <==> spec_set_is_match(self@, haystack@),
    {
        match &self.compiled {
            Some(rs) => OptionIntoIter::some(engine::raw_set_matches(rs, haystack)),
            None => OptionIntoIter::none(),
        }
    }
}

/// Law: a present pattern set delegates exactly — on a compiled state,
/// every query's value is the engine's own result for those patterns and
/// that haystack, and the pattern list is the original input.
pub proof fn lemma_present_set_delegates(ps: Seq<Seq<char>>, h: Seq<char>)
    ensures
        spec_set_is_match(Some(ps), h) == engine_set_is_match(ps, h),
        spec_set_matches(Some(ps), h) == engine_set_matches(ps, h),
        spec_patterns(Some(ps)) == ps,
{
}

/// Law: a degraded pattern set is permanently inert — on an absent
/// state, whatever the haystack, no member matches, the match
/// enumeration is empty, and the pattern list is empty.
pub proof fn lemma_degraded_set_inert(h: Seq<char>)
    ensures
        !spec_set_is_match(None::<Seq<Seq<char>>>, h),
        spec_set_matches(None::<Seq<Seq<char>>>, h) == Seq::<usize>::empty(),
        spec_patterns(None::<Seq<Seq<char>>>) == Seq::<Seq<char>>::empty(),
{
}

/// Law: set construction is all-or-nothing — one member the engine
/// cannot parse makes it reject the whole sequence, however many of the
/// other members are valid on their own. Under the tolerant policy the
/// constructor's contract then leaves the set absent as a whole.
pub proof fn lemma_set_all_or_nothing(ps: Seq<Seq<char>>, i: int)
    requires
        0 <= i < ps.len(),
        !pattern_parses(ps[i]),
    ensures
        !set_ok(ps),
{
}

} // verus!
