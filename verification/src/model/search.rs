//! Incremental fuzzy search: scoring rows against a query, ordering the
//! matches, and remembering what was found.

use crate::model::proto::Searchable;
use nucleo_matcher::pattern::{CaseMatching, Normalization, Pattern};
use nucleo_matcher::{Config, Utf32Str};
use vstd::prelude::*;
use vstd::string::StrSliceExecFns;
use vstd::utf8::encode_utf8;

verus! {

/// One row that the query matched: where it stands in its list, and which of
/// its characters the matcher paired with the query.
#[derive(Clone, PartialEq, Eq, Debug)]
pub struct Match {
    pub position: usize,
    pub offsets: Vec<u32>,
}

pub struct MatchView {
    pub position: usize,
    pub offsets: Seq<u32>,
}

impl View for Match {
    type V = MatchView;

    open spec fn view(&self) -> MatchView {
        MatchView { position: self.position, offsets: self.offsets@ }
    }
}

/// What the last search found: the matched rows, best first.
#[derive(Clone, PartialEq, Eq, Debug)]
pub struct FilterCache {
    pub matched_indices: Vec<Match>,
}

/// A search box: its text, whether it is open, and what the text matched
/// when the list was last searched.
#[derive(Clone, PartialEq, Eq, Debug)]
pub struct SearchState {
    pub query: String,
    pub active: bool,
    pub cache: FilterCache,
}

pub struct SearchView {
    pub query: Seq<char>,
    pub active: bool,
    pub cache: Seq<MatchView>,
}

/// The matches of a cache as values.
pub open spec fn matches_view(matches: Seq<Match>) -> Seq<MatchView> {
    matches.map_values(|m: Match| m@)
}

impl View for SearchState {
    type V = SearchView;

    open spec fn view(&self) -> SearchView {
        SearchView {
            query: self.query@,
            active: self.active,
            cache: matches_view(self.cache.matched_indices@),
        }
    }
}

/// What the matcher says of one row: nothing when the query does not match
/// it, else a score and the matched character offsets.
pub type Scored = Option<(u32, Vec<u32>)>;

pub open spec fn scored_view(r: Scored) -> Option<(u32, Seq<u32>)> {
    match r {
        Some((score, offsets)) => Some((score, offsets@)),
        None => None,
    }
}

/// `nucleo_matcher::Matcher`, of which nothing is read here.
#[verifier::external_type_specification]
#[verifier::external_body]
pub struct ExEngine(nucleo_matcher::Matcher);

/// What `nucleo_matcher` finds when the pattern parsed from `query`, with
/// smart case matching and smart normalization, is matched against
/// `haystack` by a matcher of the default configuration with the given
/// preference for prefixes: the score and the offsets of the matched
/// characters, in the order in which the matcher reports them.
pub uninterp spec fn fuzzy_match(query: Seq<char>, haystack: Seq<char>, prefer_prefix: bool) -> Option<(u32, Seq<u32>)>;

/// `nucleo_matcher::Matcher::new`: a matcher with fresh scratch memory.
#[verifier::external_body]
fn new_engine() -> nucleo_matcher::Matcher {
    nucleo_matcher::Matcher::new(Config::DEFAULT)
}

/// The longest query that is handed to the matcher. The matcher keeps the
/// score of a word in sixteen bits and adds to it for every character of the
/// word that it matches. Its own tables stop at words of this length so that
/// the score cannot run over; with a longer word it could.
pub const MAX_QUERY_LEN: usize = 2048;

/// The longest row, in bytes of UTF-8, that is handed to the matcher. The
/// matcher counts a row in bytes or in characters as it sees fit, never in
/// more than its bytes, and it multiplies the length of the row by that of
/// a word of the query in a machine word; with rows of this length and
/// queries of `MAX_QUERY_LEN` the product stays below two to the power of
/// thirty-two, and the row stays below the `u32::MAX` characters that the
/// matcher takes at most.
pub const MAX_HAYSTACK_BYTES: usize = 2_097_151;

/// The longest row, in bytes of UTF-8, that is handed to a matcher that
/// prefers prefixes. Such a matcher takes three points for every character
/// before the match, in sixteen bits; a match that began later than a row of
/// this length allows would run that sum over.
pub const MAX_PREFIX_HAYSTACK_BYTES: usize = 21_846;

/// The number of bytes that a text has in UTF-8.
pub open spec fn utf8_len(text: Seq<char>) -> nat {
    encode_utf8(text).len()
}

/// The longest row, in bytes of UTF-8, that the matcher is given.
pub open spec fn haystack_limit(prefer_prefix: bool) -> usize {
    if prefer_prefix {
        MAX_PREFIX_HAYSTACK_BYTES
    } else {
        MAX_HAYSTACK_BYTES
    }
}

/// `nucleo_matcher::pattern::Pattern::parse` and `Pattern::indices`: the
/// engine is given the default configuration with `prefer_prefix` set as
/// asked, so that the outcome depends on the three plain arguments alone,
/// and not on what the engine was used for before. Left out are the inputs
/// on which the matcher's sums can run over: the score of a word is safe for
/// words of no more than `MAX_QUERY_LEN` characters, which no word of a
/// query of that length exceeds, and the row is held to `haystack_limit`.
#[verifier::external_body]
fn run_engine(
    engine: &mut nucleo_matcher::Matcher,
    prefer_prefix: bool,
    query: &str,
    haystack: &str,
) -> (r: Scored)
    requires
        query@.len() <= MAX_QUERY_LEN,
        utf8_len(haystack@) <= haystack_limit(prefer_prefix),
    ensures
        scored_view(r) == fuzzy_match(query@, haystack@, prefer_prefix),
{
    engine.config = Config::DEFAULT;
    engine.config.prefer_prefix = prefer_prefix;
    let pattern = Pattern::parse(query, CaseMatching::Smart, Normalization::Smart);
    let mut buf = Vec::new();
    let mut offsets = Vec::new();
    let score = pattern.indices(Utf32Str::new(haystack, &mut buf), engine, &mut offsets);
    score.map(|s| (s, offsets))
}

/// The fuzzy matcher: a preference, and the engine's scratch memory.
pub struct Scorer {
    /// Whether matches near the start of a row score higher.
    pub prefer_prefix: bool,
    pub engine: nucleo_matcher::Matcher,
}

/// What the matcher says of a row with the search text `haystack`: a query
/// of more than `MAX_QUERY_LEN` characters matches nothing, and a row of
/// more bytes than `haystack_limit` allows does not match.
pub open spec fn item_match(query: Seq<char>, haystack: Seq<char>, prefer_prefix: bool) -> Option<
    (u32, Seq<u32>),
> {
    if query.len() > MAX_QUERY_LEN || utf8_len(haystack) > haystack_limit(prefer_prefix) {
        None
    } else {
        fuzzy_match(query, haystack, prefer_prefix)
    }
}

impl Scorer {
    pub fn new(prefer_prefix: bool) -> (m: Scorer)
        ensures
            m.prefer_prefix == prefer_prefix,
    {
        Scorer { prefer_prefix, engine: new_engine() }
    }

    /// Matches one row against the query.
    pub fn score(&mut self, query: &str, haystack: &str) -> (r: Scored)
        ensures
            scored_view(r) == item_match(query@, haystack@, old(self).prefer_prefix),
            final(self).prefer_prefix == old(self).prefer_prefix,
    {
        let limit = if self.prefer_prefix {
            MAX_PREFIX_HAYSTACK_BYTES
        } else {
            MAX_HAYSTACK_BYTES
        };
        if query.unicode_len() > MAX_QUERY_LEN || haystack.as_bytes().len() > limit {
            None
        } else {
            run_engine(&mut self.engine, self.prefer_prefix, query, haystack)
        }
    }
}

/// What the matcher said of each row of a list, in the list's order.
pub open spec fn results_view(results: Seq<Scored>) -> Seq<Option<(u32, Seq<u32>)>> {
    results.map_values(|r: Scored| scored_view(r))
}

/// Whether `p` is a row that the query matched.
pub open spec fn is_match(results: Seq<Option<(u32, Seq<u32>)>>, p: int) -> bool {
    0 <= p < results.len() && results[p] is Some
}

/// The score of a matched row.
pub open spec fn score_at(results: Seq<Option<(u32, Seq<u32>)>>, p: int) -> u32 {
    match results[p] {
        Some(found) => found.0,
        None => 0,
    }
}

/// The matched character offsets of a matched row.
pub open spec fn offsets_at(results: Seq<Option<(u32, Seq<u32>)>>, p: int) -> Seq<u32> {
    match results[p] {
        Some(found) => found.1,
        None => Seq::empty(),
    }
}

/// Whether the matched row `a` comes before the matched row `b`: the higher
/// score first, and of two rows with one score the one that stands first in
/// the list.
pub open spec fn precedes(results: Seq<Option<(u32, Seq<u32>)>>, a: int, b: int) -> bool {
    &&& is_match(results, a)
    &&& is_match(results, b)
    &&& score_at(results, a) > score_at(results, b) || (score_at(results, a) == score_at(
        results,
        b,
    ) && a < b)
}

/// Whether row `p` is among the matches of a cache.
pub open spec fn holds_row(cache: Seq<MatchView>, p: int) -> bool {
    exists|j: int| 0 <= j < cache.len() && (#[trigger] cache[j]).position == p
}

/// Whether `cache` is the ranking of the rows that `results` scores, cut
/// after `top_k` matches where a limit is given:
/// every entry is a matched row with the offsets the matcher gave for it;
/// the entries stand best first; a matched row is left out only when the
/// limit is reached and every entry comes before it.
pub open spec fn is_ranking(
    cache: Seq<MatchView>,
    results: Seq<Option<(u32, Seq<u32>)>>,
    top_k: Option<usize>,
) -> bool {
    &&& forall|j: int|
        0 <= j < cache.len() ==> is_match(results, (#[trigger] cache[j]).position as int)
            && cache[j].offsets == offsets_at(results, cache[j].position as int)
    &&& forall|j: int, k: int|
        0 <= j < k < cache.len() ==> precedes(
            results,
            (#[trigger] cache[j]).position as int,
            (#[trigger] cache[k]).position as int,
        )
    &&& forall|p: int| #[trigger]
        is_match(results, p) ==> holds_row(cache, p) || (top_k == Some(cache.len() as usize)
            && forall|j: int|
            0 <= j < cache.len() ==> precedes(results, (#[trigger] cache[j]).position as int, p))
    &&& top_k matches Some(k) ==> cache.len() <= k
}

fn score_of(results: &Vec<Scored>, p: usize) -> (s: u32)
    requires
        is_match(results_view(results@), p as int),
    ensures
        s == score_at(results_view(results@), p as int),
{
    match &results[p] {
        Some(found) => found.0,
        None => 0,
    }
}

fn offsets_of(results: &Vec<Scored>, p: usize) -> (offsets: Vec<u32>)
    requires
        is_match(results_view(results@), p as int),
    ensures
        offsets@ == offsets_at(results_view(results@), p as int),
{
    let mut offsets: Vec<u32> = Vec::new();
    match &results[p] {
        Some(found) => {
            let mut i: usize = 0;
            while i < found.1.len()
                invariant
                    i <= found.1.len(),
                    offsets@ == found.1@.subrange(0, i as int),
                decreases found.1.len() - i,
            {
                offsets.push(found.1[i]);
                assert(offsets@ == found.1@.subrange(0, i + 1));
                i += 1;
            }
            assert(offsets@ == found.1@);
        },
        None => {},
    }
    offsets
}

/// Orders the rows that a query matched: best score first, rows of one score
/// in the order of the list, and no more than `top_k` of them where a limit
/// is given. `results` holds for each row of the list what the matcher said
/// of it.
pub fn rank_matches(results: &Vec<Scored>, top_k: Option<usize>) -> (cache: Vec<Match>)
    ensures
        is_ranking(matches_view(cache@), results_view(results@), top_k),
{
    let ghost rv = results_view(results@);
    let n = results.len();
    let mut order: Vec<usize> = Vec::new();
    let ghost mut slot: Seq<int> = Seq::empty();
    let mut i: usize = 0;
    while i < n
        invariant
            i <= n,
            n == results.len(),
            rv == results_view(results@),
            slot.len() == i,
            forall|j: int| 0 <= j < order.len() ==> (#[trigger] order[j]) < i && is_match(rv, order[j] as int),
            forall|j: int, k: int|
                0 <= j < k < order.len() ==> precedes(
                    rv,
                    (#[trigger] order[j]) as int,
                    (#[trigger] order[k]) as int,
                ),
            forall|p: int|
                0 <= p < i && is_match(rv, p) ==> 0 <= (#[trigger] slot[p]) < order.len()
                    && order[slot[p]] == p,
        decreases n - i,
    {
        if results[i].is_some() {
            assert(is_match(rv, i as int));
            let score = score_of(results, i);
            let mut t = order.len();
            while t > 0 && score_of(results, order[t - 1]) < score
                invariant
                    t <= order.len(),
                    rv == results_view(results@),
                    score == score_at(rv, i as int),
                    forall|j: int| 0 <= j < order.len() ==> is_match(rv, (#[trigger] order[j]) as int),
                    forall|j: int| t <= j < order.len() ==> score_at(rv, (#[trigger] order[j]) as int) < score,
                decreases t,
            {
                t -= 1;
            }
            let ghost before = order@;
            assert forall|j: int| 0 <= j < t implies score_at(rv, (#[trigger] before[j]) as int) >= score by {
                if j < t - 1 {
                    assert(precedes(rv, before[j] as int, before[t - 1] as int));
                }
            }
            order.insert(t, i);
            proof {
                let old_slot = slot;
                slot = Seq::new(
                    (i + 1) as nat,
                    |p: int|
                        if p == i {
                            t as int
                        } else if old_slot[p] >= t {
                            old_slot[p] + 1
                        } else {
                            old_slot[p]
                        },
                );
                assert forall|j: int| 0 <= j < order.len() implies (#[trigger] order[j]) < i + 1 && is_match(
                    rv,
                    order[j] as int,
                ) by {
                    if j < t {
                        assert(order[j] == before[j]);
                    } else if j > t {
                        assert(order[j] == before[j - 1]);
                    }
                }
                assert forall|j: int, k: int| 0 <= j < k < order.len() implies precedes(
                    rv,
                    (#[trigger] order[j]) as int,
                    (#[trigger] order[k]) as int,
                ) by {
                    let a = if j < t { j } else { j - 1 };
                    let b = if k < t { k } else { k - 1 };
                    if j != t {
                        assert(order[j] == before[a]);
                    }
                    if k != t {
                        assert(order[k] == before[b]);
                    }
                    if j != t && k != t {
                        assert(precedes(rv, before[a] as int, before[b] as int));
                    }
                }
                assert forall|p: int| 0 <= p < i + 1 && is_match(rv, p) implies 0 <= (#[trigger] slot[p])
                    < order.len() && order[slot[p]] == p by {
                    if p < i {
                        let q = old_slot[p];
                        assert(before[q] == p);
                        if q >= t {
                            assert(order[q + 1] == before[q]);
                        } else {
                            assert(order[q] == before[q]);
                        }
                    }
                }
            }
        } else {
            proof {
                slot = slot.push(-1);
            }
        }
        i += 1;
    }
    let keep = match top_k {
        Some(k) => if k < order.len() {
            k
        } else {
            order.len()
        },
        None => order.len(),
    };
    let mut cache: Vec<Match> = Vec::new();
    let mut j: usize = 0;
    while j < keep
        invariant
            j <= keep <= order.len(),
            cache.len() == j,
            rv == results_view(results@),
            forall|m: int| 0 <= m < order.len() ==> is_match(rv, (#[trigger] order[m]) as int),
            forall|m: int|
                0 <= m < j ==> (#[trigger] cache[m]).position == order[m] && cache[m].offsets@
                    == offsets_at(rv, order[m] as int),
        decreases keep - j,
    {
        let position = order[j];
        let offsets = offsets_of(results, position);
        cache.push(Match { position, offsets });
        j += 1;
    }
    proof {
        let cv = matches_view(cache@);
        assert forall|m: int| 0 <= m < cv.len() implies (#[trigger] cv[m]).position == order[m]
            && cv[m].offsets == offsets_at(rv, order[m] as int) by {
            assert(cv[m] == cache[m]@);
        }
        assert forall|p: int| #[trigger] is_match(rv, p) implies holds_row(cv, p) || (top_k == Some(
            cv.len() as usize,
        ) && forall|m: int|
            0 <= m < cv.len() ==> precedes(rv, (#[trigger] cv[m]).position as int, p)) by {
            let q = slot[p];
            assert(order[q] == p);
            if q < keep {
                assert(cv[q].position == p);
            } else {
                assert forall|m: int| 0 <= m < cv.len() implies precedes(
                    rv,
                    (#[trigger] cv[m]).position as int,
                    p,
                ) by {
                    assert(precedes(rv, order[m] as int, order[q] as int));
                }
            }
        }
    }
    cache
}

/// What the matcher says of each row of a list.
pub open spec fn match_results(
    query: Seq<char>,
    haystacks: Seq<Seq<char>>,
    prefer_prefix: bool,
) -> Seq<Option<(u32, Seq<u32>)>> {
    Seq::new(haystacks.len(), |i: int| item_match(query, haystacks[i], prefer_prefix))
}

/// Every row of a list of `n` rows, in the list's order, with no character marked.
pub open spec fn identity_cache(n: nat) -> Seq<MatchView> {
    Seq::new(n, |i: int| MatchView { position: i as usize, offsets: Seq::empty() })
}

/// Whether `cache` is what a search for `query` finds in a list with the
/// search texts `haystacks`: every row as it stands for the empty query,
/// else the ranking of the rows that the matcher matched.
pub open spec fn is_filter_of(
    cache: Seq<MatchView>,
    query: Seq<char>,
    haystacks: Seq<Seq<char>>,
    prefer_prefix: bool,
    top_k: Option<usize>,
) -> bool {
    if query.len() == 0 {
        cache == identity_cache(haystacks.len())
    } else {
        is_ranking(cache, match_results(query, haystacks, prefer_prefix), top_k)
    }
}

proof fn lemma_rankings_agree_at(
    a: Seq<MatchView>,
    b: Seq<MatchView>,
    results: Seq<Option<(u32, Seq<u32>)>>,
    top_k: Option<usize>,
    j: int,
)
    requires
        is_ranking(a, results, top_k),
        is_ranking(b, results, top_k),
        0 <= j < a.len(),
        j < b.len(),
        forall|i: int| 0 <= i < j ==> (#[trigger] a[i]).position == b[i].position,
    ensures
        !precedes(results, a[j].position as int, b[j].position as int),
{
    let p = a[j].position as int;
    assert(is_match(results, p));
    if precedes(results, p, b[j].position as int) {
        if holds_row(b, p) {
            let m = choose|m: int| 0 <= m < b.len() && (#[trigger] b[m]).position == p;
            if m < j {
                assert(a[m].position == b[m].position);
                assert(precedes(results, a[m].position as int, a[j].position as int));
            } else if m > j {
                assert(precedes(results, b[j].position as int, b[m].position as int));
            }
        } else {
            assert(precedes(results, b[j].position as int, p));
        }
    }
}

proof fn lemma_rankings_share_prefix(
    a: Seq<MatchView>,
    b: Seq<MatchView>,
    results: Seq<Option<(u32, Seq<u32>)>>,
    top_k: Option<usize>,
    n: int,
)
    requires
        is_ranking(a, results, top_k),
        is_ranking(b, results, top_k),
        0 <= n <= a.len(),
        n <= b.len(),
    ensures
        forall|i: int| 0 <= i < n ==> (#[trigger] a[i]).position == b[i].position,
    decreases n,
{
    if n > 0 {
        lemma_rankings_share_prefix(a, b, results, top_k, n - 1);
        let j = n - 1;
        let pa = a[j].position as int;
        let pb = b[j].position as int;
        assert(is_match(results, pa));
        assert(is_match(results, pb));
        lemma_rankings_agree_at(a, b, results, top_k, j);
        assert forall|i: int| 0 <= i < j implies (#[trigger] b[i]).position == a[i].position by {
            assert(a[i].position == b[i].position);
        }
        lemma_rankings_agree_at(b, a, results, top_k, j);
    }
}

proof fn lemma_ranking_not_longer(
    a: Seq<MatchView>,
    b: Seq<MatchView>,
    results: Seq<Option<(u32, Seq<u32>)>>,
    top_k: Option<usize>,
)
    requires
        is_ranking(a, results, top_k),
        is_ranking(b, results, top_k),
    ensures
        b.len() <= a.len(),
{
    if a.len() < b.len() {
        let n = a.len() as int;
        lemma_rankings_share_prefix(a, b, results, top_k, n);
        let p = b[n].position as int;
        assert(is_match(results, p));
        if holds_row(a, p) {
            let m = choose|m: int| 0 <= m < a.len() && (#[trigger] a[m]).position == p;
            assert(a[m].position == b[m].position);
            assert(precedes(results, b[m].position as int, b[n].position as int));
        }
    }
}

/// The rows that `results` scores have one ranking only.
pub proof fn lemma_ranking_unique(
    a: Seq<MatchView>,
    b: Seq<MatchView>,
    results: Seq<Option<(u32, Seq<u32>)>>,
    top_k: Option<usize>,
)
    requires
        is_ranking(a, results, top_k),
        is_ranking(b, results, top_k),
    ensures
        a == b,
{
    lemma_ranking_not_longer(a, b, results, top_k);
    lemma_ranking_not_longer(b, a, results, top_k);
    lemma_rankings_share_prefix(a, b, results, top_k, a.len() as int);
    assert forall|i: int| 0 <= i < a.len() implies a[i] == b[i] by {
        assert(a[i].position == b[i].position);
        assert(a[i].offsets == offsets_at(results, a[i].position as int));
        assert(b[i].offsets == offsets_at(results, b[i].position as int));
    }
    assert(a =~= b);
}

/// A search finds one thing only: searching again for the same query in the
/// same list, with the same limit, gives the cache that is already there.
pub proof fn lemma_filter_unique(
    a: Seq<MatchView>,
    b: Seq<MatchView>,
    query: Seq<char>,
    haystacks: Seq<Seq<char>>,
    prefer_prefix: bool,
    top_k: Option<usize>,
)
    requires
        is_filter_of(a, query, haystacks, prefer_prefix, top_k),
        is_filter_of(b, query, haystacks, prefer_prefix, top_k),
    ensures
        a == b,
{
    if query.len() != 0 {
        lemma_ranking_unique(a, b, match_results(query, haystacks, prefer_prefix), top_k);
    }
}

/// The empty query finds every row, in the list's order, and marks no character.
pub proof fn lemma_empty_query_finds_all(
    cache: Seq<MatchView>,
    haystacks: Seq<Seq<char>>,
    prefer_prefix: bool,
    top_k: Option<usize>,
)
    requires
        haystacks.len() <= usize::MAX,
        is_filter_of(cache, Seq::empty(), haystacks, prefer_prefix, top_k),
    ensures
        cache.len() == haystacks.len(),
        forall|i: int|
            0 <= i < cache.len() ==> (#[trigger] cache[i]).position == i && cache[i].offsets.len()
                == 0,
{
}

/// Every row of a list of `n` rows, in the list's order, with no character marked.
pub fn all_rows(n: usize) -> (cache: Vec<Match>)
    ensures
        matches_view(cache@) == identity_cache(n as nat),
{
    let mut cache: Vec<Match> = Vec::new();
    let mut i: usize = 0;
    while i < n
        invariant
            i <= n,
            cache.len() == i,
            forall|j: int|
                0 <= j < i ==> (#[trigger] cache[j])@ == (MatchView {
                    position: j as usize,
                    offsets: Seq::empty(),
                }),
        decreases n - i,
    {
        cache.push(Match { position: i, offsets: Vec::new() });
        i += 1;
    }
    assert(matches_view(cache@) =~= identity_cache(n as nat));
    cache
}

/// Matches every row of a list against a query.
pub fn score_rows<T: View, S: Searchable<T>>(s: &S, matcher: &mut Scorer, query: &str) -> (results: Vec<
    Scored,
>)
    ensures
        results_view(results@) == match_results(
            query@,
            S::haystacks_of(s@),
            old(matcher).prefer_prefix,
        ),
        final(matcher).prefer_prefix == old(matcher).prefer_prefix,
{
    let n = s.haystack_count();
    let ghost expected = match_results(query@, S::haystacks_of(s@), matcher.prefer_prefix);
    let mut results: Vec<Scored> = Vec::new();
    let mut i: usize = 0;
    while i < n
        invariant
            i <= n,
            n == S::haystacks_of(s@).len(),
            results.len() == i,
            matcher.prefer_prefix == old(matcher).prefer_prefix,
            expected == match_results(query@, S::haystacks_of(s@), matcher.prefer_prefix),
            forall|j: int| 0 <= j < i ==> scored_view(#[trigger] results[j]) == expected[j],
        decreases n - i,
    {
        let haystack = s.haystack(i);
        let r = matcher.score(query, haystack.as_str());
        results.push(r);
        i += 1;
    }
    assert(results_view(results@) =~= expected);
    results
}

/// Searches a list for its query and stores what was found: for the empty
/// query every row as it stands, else the matched rows, best first, and no
/// more than `top_k` of them where a limit is given. Nothing but the cache
/// changes.
pub fn update_filter<T: View, S: Searchable<T>>(s: &mut S, matcher: &mut Scorer, top_k: Option<usize>)
    ensures
        final(matcher).prefer_prefix == old(matcher).prefer_prefix,
        is_filter_of(
            S::search_of(final(s)@).cache,
            S::search_of(old(s)@).query,
            S::haystacks_of(old(s)@),
            old(matcher).prefer_prefix,
            top_k,
        ),
        final(s)@ == S::put_search(
            old(s)@,
            SearchView { cache: S::search_of(final(s)@).cache, ..S::search_of(old(s)@) },
        ),
{
    let query = s.filter().query.clone();
    let matched = if query.as_str().is_empty() {
        all_rows(s.haystack_count())
    } else {
        let results = score_rows(s, matcher, query.as_str());
        rank_matches(&results, top_k)
    };
    let f = s.filter_mut();
    f.cache.matched_indices = matched;
    proof {
        S::lemma_put_search(old(s)@, final(f)@);
        assert(final(f)@ == (SearchView { cache: final(f)@.cache, ..S::search_of(old(s)@) }));
    }
}

} // verus!
