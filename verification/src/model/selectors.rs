//! The lists of the client: the playback queue, the artists of the library,
//! the tracks of one artist, and the results of a search over the whole
//! library.

use crate::model::proto::{item_view, items_view, reclamped, Searchable, Selector};
use crate::model::search::{
    all_rows, holds_row, identity_cache, is_filter_of, is_match, match_results, matches_view,
    precedes, update_filter, FilterCache, Match, MatchView, Scorer, SearchState, SearchView,
};
use crate::model::{InfoEntry, InfoView, QueueItem, QueueItemView};
use crate::util::{push_char, song_text, song_to_str};
use vstd::prelude::*;
use vstd::string::StringExecFns;

verus! {

/// A search box that is closed and empty, over a list of `n` rows.
pub fn closed_search(n: usize) -> (s: SearchState)
    ensures
        s@ == (SearchView { query: Seq::empty(), active: false, cache: identity_cache(n as nat) }),
{
    SearchState {
        query: String::new(),
        active: false,
        cache: FilterCache { matched_indices: all_rows(n) },
    }
}

/// The item that a row of a narrowed list shows: the `row`th match of the
/// cache names its place among `contents`.
pub open spec fn shown_at<V>(contents: Seq<V>, cache: Seq<MatchView>, row: Option<usize>) -> Option<
    V,
> {
    match row {
        Some(r) => if r < cache.len() && cache[r as int].position < contents.len() {
            Some(contents[cache[r as int].position as int])
        } else {
            None
        },
        None => None,
    }
}

fn shown<'a, T: View>(contents: &'a Vec<T>, cache: &Vec<Match>, row: Option<usize>) -> (item:
    Option<&'a T>)
    ensures
        item_view(item) == shown_at(contents@.map_values(|t: T| t@), matches_view(cache@), row),
{
    match row {
        Some(r) => if r < cache.len() && cache[r].position < contents.len() {
            assert(matches_view(cache@)[r as int] == cache[r as int]@);
            Some(&contents[cache[r].position])
        } else {
            None
        },
        None => None,
    }
}

/// The items that the rows of a narrowed list show: for each match of the
/// cache, in its order, the item in the place that it names. A match that
/// names no place among `contents` shows nothing.
pub open spec fn shown_rows<V>(contents: Seq<V>, cache: Seq<MatchView>) -> Seq<V>
    decreases cache.len(),
{
    if cache.len() == 0 {
        Seq::empty()
    } else if cache.last().position < contents.len() {
        shown_rows(contents, cache.drop_last()).push(contents[cache.last().position as int])
    } else {
        shown_rows(contents, cache.drop_last())
    }
}

fn shown_all<'a, T: View>(contents: &'a Vec<T>, cache: &Vec<Match>) -> (items: Vec<&'a T>)
    ensures
        items_view(items@) == shown_rows(contents@.map_values(|t: T| t@), matches_view(cache@)),
{
    let ghost all = contents@.map_values(|t: T| t@);
    let ghost found = matches_view(cache@);
    let mut items: Vec<&'a T> = Vec::new();
    let mut i: usize = 0;
    while i < cache.len()
        invariant
            i <= cache.len(),
            all == contents@.map_values(|t: T| t@),
            found == matches_view(cache@),
            items_view(items@) == shown_rows(all, found.subrange(0, i as int)),
        decreases cache.len() - i,
    {
        let ghost before = found.subrange(0, i as int);
        let ghost after = found.subrange(0, i + 1);
        assert(after.drop_last() =~= before);
        assert(after.last() == cache[i as int]@);
        let ghost shown_before = items_view(items@);
        if cache[i].position < contents.len() {
            items.push(&contents[cache[i].position]);
            assert(items_view(items@) =~= shown_before.push(all[cache[i as int].position as int]));
        }
        i += 1;
    }
    assert(found.subrange(0, i as int) =~= found);
    items
}

fn all_items<'a, T: View>(contents: &'a Vec<T>) -> (items: Vec<&'a T>)
    ensures
        items_view(items@) == contents@.map_values(|t: T| t@),
{
    let mut items: Vec<&'a T> = Vec::new();
    let mut i: usize = 0;
    while i < contents.len()
        invariant
            i <= contents.len(),
            items.len() == i,
            forall|j: int| 0 <= j < i ==> *(#[trigger] items[j]) == contents[j],
        decreases contents.len() - i,
    {
        items.push(&contents[i]);
        i += 1;
    }
    assert(items_view(items@) =~= contents@.map_values(|t: T| t@));
    items
}

/// A list narrowed by a search: its items, the cursor over the rows that the
/// search left, and the search.
pub struct ListView<V> {
    pub contents: Seq<V>,
    pub selected: Option<usize>,
    pub offset: usize,
    pub search: SearchView,
}

/// The playback queue. Its rows are the songs that its search found, which
/// are all of them while the query is empty.
pub struct QueueSelector {
    pub contents: Vec<QueueItem>,
    pub selected: Option<usize>,
    pub offset: usize,
    pub search: SearchState,
}

impl View for QueueSelector {
    type V = ListView<QueueItemView>;

    open spec fn view(&self) -> ListView<QueueItemView> {
        ListView {
            contents: self.contents@.map_values(|i: QueueItem| i@),
            selected: self.selected,
            offset: self.offset,
            search: self.search@,
        }
    }
}

impl QueueSelector {
    /// A queue of the given songs, with nothing selected and the search closed.
    pub fn new(contents: Vec<QueueItem>) -> (q: QueueSelector)
        ensures
            q.contents == contents,
            q.selected is None,
            q.offset == 0,
            q.search@ == (SearchView {
                query: Seq::empty(),
                active: false,
                cache: identity_cache(contents.len() as nat),
            }),
    {
        let search = closed_search(contents.len());
        QueueSelector { contents, selected: None, offset: 0, search }
    }
}

impl Selector for QueueSelector {
    open spec fn len_of(v: Self::V) -> usize {
        v.search.cache.len() as usize
    }

    open spec fn selected_of(v: Self::V) -> Option<usize> {
        v.selected
    }

    open spec fn offset_of(v: Self::V) -> usize {
        v.offset
    }

    open spec fn put_selected(v: Self::V, s: Option<usize>) -> Self::V {
        ListView { selected: s, ..v }
    }

    open spec fn put_offset(v: Self::V, o: usize) -> Self::V {
        ListView { offset: o, ..v }
    }

    fn len(&self) -> (n: usize) {
        self.search.cache.matched_indices.len()
    }

    fn selected(&self) -> (s: Option<usize>) {
        self.selected
    }

    fn offset(&self) -> (o: usize) {
        self.offset
    }

    fn set_selected(&mut self, s: Option<usize>) {
        self.selected = s;
    }

    fn set_offset(&mut self, o: usize) {
        self.offset = o;
    }

    proof fn lemma_put_selected(v: Self::V, s: Option<usize>) {
    }

    proof fn lemma_put_offset(v: Self::V, o: usize) {
    }
}

impl Searchable<QueueItem> for QueueSelector {
    open spec fn search_of(v: Self::V) -> SearchView {
        v.search
    }

    open spec fn put_search(v: Self::V, s: SearchView) -> Self::V {
        ListView { search: s, ..v }
    }

    open spec fn haystacks_of(v: Self::V) -> Seq<Seq<char>> {
        v.contents.map_values(|i: QueueItemView| song_text(i.song))
    }

    open spec fn contents_of(v: Self::V) -> Seq<QueueItemView> {
        shown_rows(v.contents, v.search.cache)
    }

    open spec fn selected_item_of(v: Self::V) -> Option<QueueItemView> {
        shown_at(v.contents, v.search.cache, v.selected)
    }

    fn filter(&self) -> (f: &SearchState) {
        &self.search
    }

    fn filter_mut(&mut self) -> (f: &mut SearchState) {
        &mut self.search
    }

    fn haystack_count(&self) -> (n: usize) {
        self.contents.len()
    }

    fn haystack(&self, i: usize) -> (s: String) {
        song_to_str(&self.contents[i].song)
    }

    fn contents(&self) -> (items: Vec<&QueueItem>) {
        shown_all(&self.contents, &self.search.cache.matched_indices)
    }

    fn selected_item(&self) -> (item: Option<&QueueItem>) {
        shown(&self.contents, &self.search.cache.matched_indices, self.selected)
    }

    proof fn lemma_put_search(v: Self::V, s: SearchView) {
    }

    proof fn lemma_cursor_keeps_search(v: Self::V, s: Option<usize>, o: usize) {
    }
}

/// The text by which a row of the library is searched for: the artist, the
/// name the artist is sorted by in brackets where it differs, then the album
/// and the title, each after a slash.
pub open spec fn info_text(v: InfoView) -> Seq<char> {
    let sort = match v.artist_sort {
        Some(s) => if s != v.artist {
            seq![' ', '('] + s + seq![')']
        } else {
            Seq::empty()
        },
        None => Seq::empty(),
    };
    let album = match v.album {
        Some(a) => seq!['/'] + a,
        None => Seq::empty(),
    };
    let title = match v.title {
        Some(t) => seq!['/'] + t,
        None => Seq::empty(),
    };
    v.artist + sort + album + title
}

impl InfoEntry {
    pub fn to_search_string(&self) -> (out: String)
        ensures
            out@ == info_text(self@),
    {
        let mut out = self.artist.clone();
        if let Some(sort) = &self.artist_sort {
            if !(*sort == self.artist) {
                push_char(&mut out, ' ');
                push_char(&mut out, '(');
                out.append(sort.as_str());
                push_char(&mut out, ')');
            }
        }
        if let Some(album) = &self.album {
            push_char(&mut out, '/');
            out.append(album.as_str());
        }
        if let Some(title) = &self.title {
            push_char(&mut out, '/');
            out.append(title.as_str());
        }
        assert(out@ =~= info_text(self@));
        out
    }
}

/// The rows found by a search over the whole library.
pub struct GlobalSearchState {
    pub contents: Vec<InfoEntry>,
    pub selected: Option<usize>,
    pub offset: usize,
    pub search: SearchState,
}

impl View for GlobalSearchState {
    type V = ListView<InfoView>;

    open spec fn view(&self) -> ListView<InfoView> {
        ListView {
            contents: self.contents@.map_values(|i: InfoEntry| i@),
            selected: self.selected,
            offset: self.offset,
            search: self.search@,
        }
    }
}

impl GlobalSearchState {
    /// A search over the given rows, closed, with nothing selected.
    pub fn new(contents: Vec<InfoEntry>) -> (g: GlobalSearchState)
        ensures
            g.contents == contents,
            g.selected is None,
            g.offset == 0,
            g.search@ == (SearchView {
                query: Seq::empty(),
                active: false,
                cache: identity_cache(contents.len() as nat),
            }),
    {
        let search = closed_search(contents.len());
        GlobalSearchState { contents, selected: None, offset: 0, search }
    }
}

impl Selector for GlobalSearchState {
    open spec fn len_of(v: Self::V) -> usize {
        v.search.cache.len() as usize
    }

    open spec fn selected_of(v: Self::V) -> Option<usize> {
        v.selected
    }

    open spec fn offset_of(v: Self::V) -> usize {
        v.offset
    }

    open spec fn put_selected(v: Self::V, s: Option<usize>) -> Self::V {
        ListView { selected: s, ..v }
    }

    open spec fn put_offset(v: Self::V, o: usize) -> Self::V {
        ListView { offset: o, ..v }
    }

    fn len(&self) -> (n: usize) {
        self.search.cache.matched_indices.len()
    }

    fn selected(&self) -> (s: Option<usize>) {
        self.selected
    }

    fn offset(&self) -> (o: usize) {
        self.offset
    }

    fn set_selected(&mut self, s: Option<usize>) {
        self.selected = s;
    }

    fn set_offset(&mut self, o: usize) {
        self.offset = o;
    }

    proof fn lemma_put_selected(v: Self::V, s: Option<usize>) {
    }

    proof fn lemma_put_offset(v: Self::V, o: usize) {
    }
}

impl Searchable<InfoEntry> for GlobalSearchState {
    open spec fn search_of(v: Self::V) -> SearchView {
        v.search
    }

    open spec fn put_search(v: Self::V, s: SearchView) -> Self::V {
        ListView { search: s, ..v }
    }

    open spec fn haystacks_of(v: Self::V) -> Seq<Seq<char>> {
        v.contents.map_values(|i: InfoView| info_text(i))
    }

    open spec fn contents_of(v: Self::V) -> Seq<InfoView> {
        shown_rows(v.contents, v.search.cache)
    }

    open spec fn selected_item_of(v: Self::V) -> Option<InfoView> {
        shown_at(v.contents, v.search.cache, v.selected)
    }

    fn filter(&self) -> (f: &SearchState) {
        &self.search
    }

    fn filter_mut(&mut self) -> (f: &mut SearchState) {
        &mut self.search
    }

    fn haystack_count(&self) -> (n: usize) {
        self.contents.len()
    }

    fn haystack(&self, i: usize) -> (s: String) {
        self.contents[i].to_search_string()
    }

    fn contents(&self) -> (items: Vec<&InfoEntry>) {
        shown_all(&self.contents, &self.search.cache.matched_indices)
    }

    fn selected_item(&self) -> (item: Option<&InfoEntry>) {
        shown(&self.contents, &self.search.cache.matched_indices, self.selected)
    }

    proof fn lemma_put_search(v: Self::V, s: SearchView) {
    }

    proof fn lemma_cursor_keeps_search(v: Self::V, s: Option<usize>, o: usize) {
    }
}

/// One artist of the library and the tracks under it. Every track is a row,
/// whatever the search over them finds: the search gives the tracks it
/// matched a rank, by which the selection steps from match to match.
pub struct ArtistData {
    pub name: String,
    pub contents: Vec<InfoEntry>,
    pub selected: Option<usize>,
    pub offset: usize,
    pub search: SearchState,
}

pub struct ArtistView {
    pub name: Seq<char>,
    pub contents: Seq<InfoView>,
    pub selected: Option<usize>,
    pub offset: usize,
    pub search: SearchView,
}

impl View for ArtistData {
    type V = ArtistView;

    open spec fn view(&self) -> ArtistView {
        ArtistView {
            name: self.name@,
            contents: self.contents@.map_values(|i: InfoEntry| i@),
            selected: self.selected,
            offset: self.offset,
            search: self.search@,
        }
    }
}

impl Selector for ArtistData {
    open spec fn len_of(v: Self::V) -> usize {
        v.contents.len() as usize
    }

    open spec fn selected_of(v: Self::V) -> Option<usize> {
        v.selected
    }

    open spec fn offset_of(v: Self::V) -> usize {
        v.offset
    }

    open spec fn put_selected(v: Self::V, s: Option<usize>) -> Self::V {
        ArtistView { selected: s, ..v }
    }

    open spec fn put_offset(v: Self::V, o: usize) -> Self::V {
        ArtistView { offset: o, ..v }
    }

    fn len(&self) -> (n: usize) {
        self.contents.len()
    }

    fn selected(&self) -> (s: Option<usize>) {
        self.selected
    }

    fn offset(&self) -> (o: usize) {
        self.offset
    }

    fn set_selected(&mut self, s: Option<usize>) {
        self.selected = s;
    }

    fn set_offset(&mut self, o: usize) {
        self.offset = o;
    }

    proof fn lemma_put_selected(v: Self::V, s: Option<usize>) {
    }

    proof fn lemma_put_offset(v: Self::V, o: usize) {
    }
}

/// The item in a row of a list that shows all its items.
pub open spec fn item_at<V>(contents: Seq<V>, row: Option<usize>) -> Option<V> {
    match row {
        Some(r) => if r < contents.len() {
            Some(contents[r as int])
        } else {
            None
        },
        None => None,
    }
}

impl Searchable<InfoEntry> for ArtistData {
    open spec fn search_of(v: Self::V) -> SearchView {
        v.search
    }

    open spec fn put_search(v: Self::V, s: SearchView) -> Self::V {
        ArtistView { search: s, ..v }
    }

    open spec fn haystacks_of(v: Self::V) -> Seq<Seq<char>> {
        v.contents.map_values(|i: InfoView| info_text(i))
    }

    open spec fn contents_of(v: Self::V) -> Seq<InfoView> {
        v.contents
    }

    open spec fn selected_item_of(v: Self::V) -> Option<InfoView> {
        item_at(v.contents, v.selected)
    }

    fn filter(&self) -> (f: &SearchState) {
        &self.search
    }

    fn filter_mut(&mut self) -> (f: &mut SearchState) {
        &mut self.search
    }

    fn haystack_count(&self) -> (n: usize) {
        self.contents.len()
    }

    fn haystack(&self, i: usize) -> (s: String) {
        self.contents[i].to_search_string()
    }

    fn contents(&self) -> (items: Vec<&InfoEntry>) {
        all_items(&self.contents)
    }

    fn selected_item(&self) -> (item: Option<&InfoEntry>) {
        match self.selected {
            Some(r) => if r < self.contents.len() {
                Some(&self.contents[r])
            } else {
                None
            },
            None => None,
        }
    }

    proof fn lemma_put_search(v: Self::V, s: SearchView) {
    }

    proof fn lemma_cursor_keeps_search(v: Self::V, s: Option<usize>, o: usize) {
    }
}

/// Whether the tracks `after` are the tracks `before` with the ranks that a
/// search gives them: a track that the search found has for its rank its
/// place in `cache`, and any other track has none.
pub open spec fn ranks_follow(after: Seq<InfoView>, before: Seq<InfoView>, cache: Seq<MatchView>) -> bool {
    &&& after.len() == before.len()
    &&& forall|i: int|
        0 <= i < after.len() ==> #[trigger] after[i] == (InfoView {
            rank: after[i].rank,
            ..before[i]
        })
    &&& forall|j: int|
        0 <= j < cache.len() ==> (#[trigger] cache[j]).position < after.len()
            && after[cache[j].position as int].rank == Some(j as usize)
    &&& forall|i: int|
        0 <= i < after.len() && !holds_row(cache, i) ==> (#[trigger] after[i]).rank is None
}

/// What a search found names rows of the list, and no row twice.
pub proof fn lemma_filter_rows_distinct(
    cache: Seq<MatchView>,
    query: Seq<char>,
    haystacks: Seq<Seq<char>>,
    prefer_prefix: bool,
    top_k: Option<usize>,
)
    requires
        haystacks.len() <= usize::MAX,
        is_filter_of(cache, query, haystacks, prefer_prefix, top_k),
    ensures
        forall|j: int| 0 <= j < cache.len() ==> (#[trigger] cache[j]).position < haystacks.len(),
        forall|j: int, k: int|
            0 <= j < k < cache.len() ==> (#[trigger] cache[j]).position != (
            #[trigger] cache[k]).position,
{
    if query.len() != 0 {
        let results = match_results(query, haystacks, prefer_prefix);
        assert forall|j: int| 0 <= j < cache.len() implies (#[trigger] cache[j]).position
            < haystacks.len() by {
            assert(is_match(results, cache[j].position as int));
        }
        assert forall|j: int, k: int| 0 <= j < k < cache.len() implies (#[trigger] cache[j]).position
            != (#[trigger] cache[k]).position by {
            assert(precedes(results, cache[j].position as int, cache[k].position as int));
        }
    }
}

impl ArtistData {
    /// An artist with the given tracks, with nothing selected and the search
    /// closed. The tracks keep the ranks they come with.
    pub fn new(name: String, contents: Vec<InfoEntry>) -> (a: ArtistData)
        ensures
            a.name == name,
            a.contents == contents,
            a.selected is None,
            a.offset == 0,
            a.search@ == (SearchView {
                query: Seq::empty(),
                active: false,
                cache: identity_cache(contents.len() as nat),
            }),
    {
        let search = closed_search(contents.len());
        ArtistData { name, contents, selected: None, offset: 0, search }
    }

    /// Searches the tracks for the query and ranks them: the tracks that the
    /// search found get their place among the matches for a rank, best match
    /// first, and the others lose theirs. The empty query ranks every track
    /// by its place in the list. The cursor is then brought back among the
    /// tracks.
    pub fn update_search(&mut self, matcher: &mut Scorer)
        ensures
            final(matcher).prefer_prefix == old(matcher).prefer_prefix,
            is_filter_of(
                final(self)@.search.cache,
                old(self)@.search.query,
                Self::haystacks_of(old(self)@),
                old(matcher).prefer_prefix,
                None,
            ),
            ranks_follow(final(self)@.contents, old(self)@.contents, final(self)@.search.cache),
            final(self)@ == reclamped::<ArtistData>(
                ArtistView {
                    contents: final(self)@.contents,
                    search: SearchView { cache: final(self)@.search.cache, ..old(self)@.search },
                    ..old(self)@
                },
            ),
    {
        update_filter(self, matcher, None);
        let ghost searched = self@;
        let ghost cache = searched.search.cache;
        proof {
            assert(Self::haystacks_of(old(self)@).len() == old(self).contents.len());
            lemma_filter_rows_distinct(
                cache,
                searched.search.query,
                Self::haystacks_of(old(self)@),
                old(matcher).prefer_prefix,
                None,
            );
        }
        let n = self.contents.len();
        let mut i: usize = 0;
        while i < n
            invariant
                i <= n,
                n == self.contents.len(),
                n == searched.contents.len(),
                self@ == (ArtistView { contents: self@.contents, ..searched }),
                forall|t: int|
                    0 <= t < n ==> #[trigger] self@.contents[t] == (InfoView {
                        rank: if t < i {
                            None
                        } else {
                            searched.contents[t].rank
                        },
                        ..searched.contents[t]
                    }),
            decreases n - i,
        {
            let ghost before = self.contents@;
            let ghost shown_before = self@.contents;
            self.contents[i].rank = None;
            proof {
                assert(self.contents@ =~= before.update(
                    i as int,
                    InfoEntry { rank: None, ..before[i as int] },
                ));
                assert forall|t: int| 0 <= t < n implies #[trigger] self@.contents[t] == (InfoView {
                    rank: if t < i + 1 {
                        None
                    } else {
                        searched.contents[t].rank
                    },
                    ..searched.contents[t]
                }) by {
                    assert(self@.contents[t] == self.contents@[t]@);
                    assert(shown_before[t] == before[t]@);
                    if t != i {
                        assert(self.contents@[t] == before[t]);
                    }
                }
            }
            i += 1;
        }
        let m = self.search.cache.matched_indices.len();
        let mut j: usize = 0;
        while j < m
            invariant
                j <= m,
                m == cache.len(),
                n == self.contents.len(),
                n == searched.contents.len(),
                cache == self@.search.cache,
                self@ == (ArtistView { contents: self@.contents, ..searched }),
                forall|t: int| 0 <= t < m ==> (#[trigger] cache[t]).position < n,
                forall|t: int, u: int|
                    0 <= t < u < m ==> (#[trigger] cache[t]).position != (
                    #[trigger] cache[u]).position,
                forall|t: int|
                    0 <= t < n ==> #[trigger] self@.contents[t] == (InfoView {
                        rank: self@.contents[t].rank,
                        ..searched.contents[t]
                    }),
                forall|t: int|
                    0 <= t < j ==> self@.contents[(#[trigger] cache[t]).position as int].rank
                        == Some(t as usize),
                forall|t: int|
                    0 <= t < n && !holds_row(cache.subrange(0, j as int), t) ==> (
                    #[trigger] self@.contents[t]).rank is None,
            decreases m - j,
        {
            let ghost before = self@.contents;
            let ghost entries = self.contents@;
            assert(cache[j as int] == self.search.cache.matched_indices[j as int]@);
            let p = self.search.cache.matched_indices[j].position;
            self.contents[p].rank = Some(j);
            proof {
                assert(self.contents@ =~= entries.update(
                    p as int,
                    InfoEntry { rank: Some(j), ..entries[p as int] },
                ));
                assert forall|t: int| 0 <= t < n implies #[trigger] self@.contents[t] == (InfoView {
                    rank: self@.contents[t].rank,
                    ..searched.contents[t]
                }) && (t != p ==> self@.contents[t] == before[t]) by {
                    assert(self@.contents[t] == self.contents@[t]@);
                    assert(before[t] == entries[t]@);
                }
                let prefix = cache.subrange(0, j as int);
                let longer = cache.subrange(0, j + 1);
                assert(longer[j as int].position == p);
                assert forall|t: int| 0 <= t < n && !holds_row(longer, t) implies (
                #[trigger] self@.contents[t]).rank is None by {
                    assert(t != p);
                    if holds_row(prefix, t) {
                        let w = choose|w: int| 0 <= w < prefix.len() && (#[trigger] prefix[w]).position == t;
                        assert(longer[w].position == t);
                    }
                    assert(self@.contents[t] == before[t]);
                }
                assert forall|t: int| 0 <= t < j + 1 implies self@.contents[(
                #[trigger] cache[t]).position as int].rank == Some(t as usize) by {
                    if t < j {
                        assert(cache[t].position != cache[j as int].position);
                        assert(self@.contents[cache[t].position as int] == before[cache[t].position as int]);
                    }
                }
            }
            j += 1;
        }
        proof {
            assert(cache.subrange(0, m as int) =~= cache);
        }
        self.watch_oob();
    }
}

/// The library: its artists, the search over their names, and the search
/// over everything. The rows of the artist list are the artists that the
/// search over the names found.
pub struct LibraryState {
    pub contents: Vec<ArtistData>,
    pub selected: Option<usize>,
    pub offset: usize,
    pub artist_search: SearchState,
    pub global_search: GlobalSearchState,
}

pub struct LibraryView {
    pub contents: Seq<ArtistView>,
    pub selected: Option<usize>,
    pub offset: usize,
    pub artist_search: SearchView,
    pub global_search: ListView<InfoView>,
}

impl View for LibraryState {
    type V = LibraryView;

    open spec fn view(&self) -> LibraryView {
        LibraryView {
            contents: self.contents@.map_values(|a: ArtistData| a@),
            selected: self.selected,
            offset: self.offset,
            artist_search: self.artist_search@,
            global_search: self.global_search@,
        }
    }
}

impl LibraryState {
    /// A library of the given artists, over whose rows `entries` the whole
    /// library is searched, with nothing selected and every search closed.
    pub fn new(contents: Vec<ArtistData>, entries: Vec<InfoEntry>) -> (l: LibraryState)
        ensures
            l.contents == contents,
            l.selected is None,
            l.offset == 0,
            l.artist_search@ == (SearchView {
                query: Seq::empty(),
                active: false,
                cache: identity_cache(contents.len() as nat),
            }),
            l.global_search.contents == entries,
            l.global_search.selected is None,
            l.global_search.offset == 0,
            l.global_search.search@ == (SearchView {
                query: Seq::empty(),
                active: false,
                cache: identity_cache(entries.len() as nat),
            }),
    {
        let artist_search = closed_search(contents.len());
        LibraryState {
            contents,
            selected: None,
            offset: 0,
            artist_search,
            global_search: GlobalSearchState::new(entries),
        }
    }
}

impl Selector for LibraryState {
    open spec fn len_of(v: Self::V) -> usize {
        v.artist_search.cache.len() as usize
    }

    open spec fn selected_of(v: Self::V) -> Option<usize> {
        v.selected
    }

    open spec fn offset_of(v: Self::V) -> usize {
        v.offset
    }

    open spec fn put_selected(v: Self::V, s: Option<usize>) -> Self::V {
        LibraryView { selected: s, ..v }
    }

    open spec fn put_offset(v: Self::V, o: usize) -> Self::V {
        LibraryView { offset: o, ..v }
    }

    fn len(&self) -> (n: usize) {
        self.artist_search.cache.matched_indices.len()
    }

    fn selected(&self) -> (s: Option<usize>) {
        self.selected
    }

    fn offset(&self) -> (o: usize) {
        self.offset
    }

    fn set_selected(&mut self, s: Option<usize>) {
        self.selected = s;
    }

    fn set_offset(&mut self, o: usize) {
        self.offset = o;
    }

    proof fn lemma_put_selected(v: Self::V, s: Option<usize>) {
    }

    proof fn lemma_put_offset(v: Self::V, o: usize) {
    }
}

impl Searchable<ArtistData> for LibraryState {
    open spec fn search_of(v: Self::V) -> SearchView {
        v.artist_search
    }

    open spec fn put_search(v: Self::V, s: SearchView) -> Self::V {
        LibraryView { artist_search: s, ..v }
    }

    open spec fn haystacks_of(v: Self::V) -> Seq<Seq<char>> {
        v.contents.map_values(|a: ArtistView| a.name)
    }

    open spec fn contents_of(v: Self::V) -> Seq<ArtistView> {
        shown_rows(v.contents, v.artist_search.cache)
    }

    open spec fn selected_item_of(v: Self::V) -> Option<ArtistView> {
        shown_at(v.contents, v.artist_search.cache, v.selected)
    }

    fn filter(&self) -> (f: &SearchState) {
        &self.artist_search
    }

    fn filter_mut(&mut self) -> (f: &mut SearchState) {
        &mut self.artist_search
    }

    fn haystack_count(&self) -> (n: usize) {
        self.contents.len()
    }

    fn haystack(&self, i: usize) -> (s: String) {
        self.contents[i].name.clone()
    }

    fn contents(&self) -> (items: Vec<&ArtistData>) {
        shown_all(&self.contents, &self.artist_search.cache.matched_indices)
    }

    fn selected_item(&self) -> (item: Option<&ArtistData>) {
        shown(&self.contents, &self.artist_search.cache.matched_indices, self.selected)
    }

    proof fn lemma_put_search(v: Self::V, s: SearchView) {
    }

    proof fn lemma_cursor_keeps_search(v: Self::V, s: Option<usize>, o: usize) {
    }
}

} // verus!
