//! The library screen: what each message does to the model, and which of
//! the screen's search boxes a key goes to.

use crate::model::proto::{selector_in_bounds, Searchable, Selector};
use crate::model::search::SearchView;
use crate::model::selectors::{
    ArtistData, ArtistView, GlobalSearchState, LibraryState, LibraryView, ListView,
};
use crate::model::{
    Dirs, InfoEntry, KeyEvent, Message, Model, ModelView, Screen, SearchMsg, State, Update,
};
use crate::update::handlers::queue_handler::Step;
use crate::update::{handle_msg, message_outcome};
use crate::update::handlers::{
    handle_search_k, handle_search_k_tracksel, handle_vertical, lemma_moved_in_bounds,
    lemma_scrolled_in_bounds, moved, scroll_screenful, scrolled, search_key_message,
    search_key_outcome, tracksel_key_message, tracksel_key_outcome,
};
use crate::view::layout::library_layout::LibraryLayout;
use crate::view::layout::InoriLayout;
use vstd::prelude::*;

verus! {

/// A search box of the library screen.
#[derive(Clone, Copy, PartialEq, Eq, Debug)]
pub enum SearchNode {
    /// The search over the tracks of the artist in the given place.
    Tracks(usize),
    /// The search over the names of the artists.
    Artists,
    /// The search over the whole library.
    Global,
}

/// The place among the artists of the one that is selected.
pub open spec fn selected_artist_of(l: LibraryView) -> Option<usize> {
    match l.selected {
        Some(row) => if row < l.artist_search.cache.len() && l.artist_search.cache[row as int].position
            < l.contents.len() {
            Some(l.artist_search.cache[row as int].position)
        } else {
            None
        },
        None => None,
    }
}

/// The search box that keys go to: an open search over the tracks of the
/// selected artist comes before one over the artists, and that before one
/// over the whole library.
pub open spec fn search_owner_of(l: LibraryView) -> Option<SearchNode> {
    if selected_artist_of(l) is Some && l.contents[selected_artist_of(l).unwrap() as int].search.active {
        Some(SearchNode::Tracks(selected_artist_of(l).unwrap()))
    } else if l.artist_search.active {
        Some(SearchNode::Artists)
    } else if l.global_search.search.active {
        Some(SearchNode::Global)
    } else {
        None
    }
}

fn selected_artist(library: &LibraryState) -> (place: Option<usize>)
    ensures
        place == selected_artist_of(library@),
        place matches Some(p) ==> p < library.contents.len(),
{
    match library.selected {
        Some(row) => {
            if row < library.artist_search.cache.matched_indices.len() {
                assert(library@.artist_search.cache[row as int]
                    == library.artist_search.cache.matched_indices[row as int]@);
                let p = library.artist_search.cache.matched_indices[row].position;
                if p < library.contents.len() {
                    Some(p)
                } else {
                    None
                }
            } else {
                None
            }
        },
        None => None,
    }
}

/// Finds the search box that keys go to.
pub fn search_owner(model: &Model) -> (owner: Option<SearchNode>)
    ensures
        owner == search_owner_of(model@.library),
{
    let tracks = match selected_artist(&model.library) {
        Some(p) => {
            assert(model@.library.contents[p as int] == model.library.contents[p as int]@);
            if model.library.contents[p].search.active {
                Some(p)
            } else {
                None
            }
        },
        None => None,
    };
    match tracks {
        Some(p) => Some(SearchNode::Tracks(p)),
        None => if model.library.artist_search.active {
            Some(SearchNode::Artists)
        } else if model.library.global_search.search.active {
            Some(SearchNode::Global)
        } else {
            None
        },
    }
}

/// The rows of a list of the library that a search keeps: as many as the
/// frame is high.
pub open spec fn library_top_k(m: ModelView) -> usize {
    m.frame_size.height as usize
}

/// What a key typed on the library screen asks of the caller.
pub open spec fn library_key_message(l: LibraryView, k: KeyEvent) -> Option<Message> {
    match search_owner_of(l) {
        Some(SearchNode::Tracks(_)) => tracksel_key_message(k),
        Some(_) => search_key_message(k),
        None => None,
    }
}

/// Whether `after` is the library `before` once a key was typed while the
/// library screen was searched: the key went to the search box that owns the
/// keys, and nothing else changed.
pub open spec fn library_key_outcome(
    before: LibraryView,
    after: LibraryView,
    k: KeyEvent,
    prefer_prefix: bool,
    top_k: usize,
) -> bool {
    match search_owner_of(before) {
        Some(SearchNode::Tracks(p)) => {
            &&& tracksel_key_outcome(before.contents[p as int], after.contents[p as int], k, prefer_prefix)
            &&& after == (LibraryView {
                contents: before.contents.update(p as int, after.contents[p as int]),
                ..before
            })
        },
        Some(SearchNode::Artists) => search_key_outcome::<ArtistData, LibraryState>(
            before,
            after,
            k,
            prefer_prefix,
            top_k,
        ),
        Some(SearchNode::Global) => {
            &&& search_key_outcome::<InfoEntry, GlobalSearchState>(
                before.global_search,
                after.global_search,
                k,
                prefer_prefix,
                top_k,
            )
            &&& after == (LibraryView { global_search: after.global_search, ..before })
        },
        None => after == before,
    }
}

/// Takes a key typed while the library screen is searched, and hands it to
/// the search box that owns the keys. What the key asks of the caller is
/// handed back. With no search open the key is dropped.
pub fn route_search_key(model: &mut Model, k: KeyEvent) -> (msg: Option<Message>)
    ensures
        msg == library_key_message(old(model)@.library, k),
        library_key_outcome(
            old(model)@.library,
            final(model)@.library,
            k,
            old(model)@.prefer_prefix,
            library_top_k(old(model)@),
        ),
        final(model)@ == (ModelView { library: final(model)@.library, ..old(model)@ }),
{
    let top_k = model.frame_size.height as usize;
    match search_owner(model) {
        Some(SearchNode::Tracks(p)) => {
            let ghost before = model.library.contents@;
            assert(model@.library.contents[p as int] == before[p as int]@);
            let msg = handle_search_k_tracksel(&mut model.library.contents[p], k, &mut model.matcher);
            proof {
                let after = model.library.contents@;
                assert(after =~= before.update(p as int, after[p as int]));
                assert(model@.library.contents[p as int] == after[p as int]@);
                assert(model@.library.contents =~= old(model)@.library.contents.update(
                    p as int,
                    model@.library.contents[p as int],
                ));
            }
            msg
        },
        Some(SearchNode::Artists) => handle_search_k(
            &mut model.library,
            k,
            &mut model.matcher,
            top_k,
        ),
        Some(SearchNode::Global) => handle_search_k(
            &mut model.library.global_search,
            k,
            &mut model.matcher,
            top_k,
        ),
        None => None,
    }
}

/// A search box closed and emptied; what it last found stays.
pub open spec fn search_closed(s: SearchView) -> SearchView {
    SearchView { active: false, query: Seq::empty(), ..s }
}

/// The library with the search box that owns the keys closed and emptied.
pub open spec fn owner_closed(l: LibraryView) -> LibraryView {
    match search_owner_of(l) {
        Some(SearchNode::Tracks(p)) => LibraryView {
            contents: l.contents.update(
                p as int,
                ArtistView { search: search_closed(l.contents[p as int].search), ..l.contents[p as int] },
            ),
            ..l
        },
        Some(SearchNode::Artists) => LibraryView {
            artist_search: search_closed(l.artist_search),
            ..l
        },
        Some(SearchNode::Global) => LibraryView {
            global_search: ListView {
                search: search_closed(l.global_search.search),
                ..l.global_search
            },
            ..l
        },
        None => l,
    }
}

/// The artist whose tracks the local search opens next: the selected one,
/// once the search over the artists is open. Before that the local search
/// is the one over the artists.
pub open spec fn tracks_to_search(l: LibraryView) -> Option<usize> {
    if l.artist_search.active {
        selected_artist_of(l)
    } else {
        None
    }
}

/// The library with its local search opened. The searches are nested: the
/// first to open is the one over the artists, with the first artist
/// selected; while it is open, the next is the one over the tracks of the
/// selected artist, with the first of the tracks selected.
pub open spec fn local_search_opened(l: LibraryView) -> LibraryView {
    match tracks_to_search(l) {
        Some(p) => {
            let artist = l.contents[p as int];
            LibraryView {
                contents: l.contents.update(
                    p as int,
                    ArtistView {
                        search: SearchView { active: true, ..artist.search },
                        selected: if ArtistData::len_of(artist) != 0 {
                            Some(0)
                        } else {
                            artist.selected
                        },
                        ..artist
                    },
                ),
                ..l
            }
        },
        None => LibraryView {
            artist_search: SearchView { active: true, ..l.artist_search },
            selected: if LibraryState::len_of(l) != 0 {
                Some(0)
            } else {
                l.selected
            },
            ..l
        },
    }
}

/// The model that a message leads to on the library screen, where `page`
/// is the height of the artist list's region. Moves and pages are over the
/// artists. The local search opens as `local_search_opened` says, and
/// Escape closes the search box that owns the keys. The playback service
/// offers nothing for a row of the library, so that to select, to delete
/// and to move sideways change nothing here.
pub open spec fn library_step(m: ModelView, msg: Message, page: usize) -> ModelView {
    let l = m.library;
    match msg {
        Message::ToggleScreen => ModelView { screen: Screen::Queue, ..m },
        Message::Direction(Dirs::Vert(d)) => ModelView {
            library: moved::<LibraryState>(l, d),
            ..m
        },
        Message::ScrollScreenful(v) => ModelView {
            library: scrolled::<LibraryState>(l, v, page),
            ..m
        },
        Message::LocalSearch(SearchMsg::Start) => ModelView {
            state: State::Searching,
            library: local_search_opened(l),
            ..m
        },
        Message::GlobalSearch(SearchMsg::Start) => ModelView {
            state: State::Searching,
            library: LibraryView {
                global_search: ListView {
                    search: SearchView { active: true, ..l.global_search.search },
                    selected: if GlobalSearchState::len_of(l.global_search) != 0 {
                        Some(0)
                    } else {
                        l.global_search.selected
                    },
                    ..l.global_search
                },
                ..l
            },
            ..m
        },
        Message::LocalSearch(SearchMsg::End) => ModelView { state: State::Running, ..m },
        Message::GlobalSearch(SearchMsg::End) => ModelView { state: State::Running, ..m },
        Message::Escape => ModelView { library: owner_closed(l), ..m },
        _ => m,
    }
}

/// No message takes the artist list or the results of the search over the
/// whole library out of bounds, whatever the height of the page.
pub proof fn lemma_library_step_in_bounds(m: ModelView, msg: Message, page: usize)
    requires
        selector_in_bounds::<LibraryState>(m.library),
        selector_in_bounds::<GlobalSearchState>(m.library.global_search),
    ensures
        selector_in_bounds::<LibraryState>(library_step(m, msg, page).library),
        selector_in_bounds::<GlobalSearchState>(library_step(m, msg, page).library.global_search),
{
    match msg {
        Message::Direction(Dirs::Vert(d)) => {
            lemma_moved_in_bounds::<LibraryState>(m.library, d);
        },
        Message::ScrollScreenful(v) => {
            lemma_scrolled_in_bounds::<LibraryState>(m.library, v, page);
        },
        _ => {},
    }
}

/// Whether `after` and `step` are what a message leads to from the model
/// `before` on the library screen. A page is turned by the height of the
/// artist list's region in some division of the frame that fits the model.
pub open spec fn library_message_outcome(
    before: ModelView,
    after: ModelView,
    step: Step,
    msg: Message,
) -> bool {
    &&& step == Step::Done(Update::empty())
    &&& if msg is ScrollScreenful {
        exists|regions: LibraryLayout|
            #![trigger regions.fits(before.frame_size, before)]
            regions.fits(before.frame_size, before) && after == library_step(
                before,
                msg,
                regions.artist_select.height as usize,
            )
    } else {
        after == library_step(before, msg, 0)
    }
}

/// Takes a message on the library screen. No message of this screen asks
/// anything of the playback service, and none names an area to draw again.
/// A message that this screen does not know changes nothing.
pub fn handle_library(model: &mut Model, msg: Message) -> (step: Step)
    ensures
        library_message_outcome(old(model)@, final(model)@, step, msg),
{
    match msg {
        Message::ToggleScreen => {
            model.screen = Screen::Queue;
        },
        Message::Direction(Dirs::Vert(d)) => {
            handle_vertical(d, &mut model.library);
        },
        Message::ScrollScreenful(v) => {
            let regions = LibraryLayout::new(model.frame_size, model);
            scroll_screenful(v, regions.artist_select.height as usize, &mut model.library);
        },
        Message::LocalSearch(SearchMsg::Start) => {
            let tracks = if model.library.artist_search.active {
                selected_artist(&model.library)
            } else {
                None
            };
            match tracks {
                Some(p) => {
                    let ghost before = model.library.contents@;
                    assert(model@.library.contents[p as int] == before[p as int]@);
                    model.library.contents[p].search.active = true;
                    if model.library.contents[p].len() != 0 {
                        model.library.contents[p].set_selected(Some(0));
                    }
                    proof {
                        let after = model.library.contents@;
                        assert(after =~= before.update(p as int, after[p as int]));
                        assert(model@.library.contents =~= local_search_opened(
                            old(model)@.library,
                        ).contents);
                    }
                },
                None => {
                    model.library.artist_search.active = true;
                    if model.library.len() != 0 {
                        model.library.set_selected(Some(0));
                    }
                },
            }
            model.state = State::Searching;
        },
        Message::GlobalSearch(SearchMsg::Start) => {
            model.library.global_search.search.active = true;
            model.state = State::Searching;
            if model.library.global_search.len() != 0 {
                model.library.global_search.set_selected(Some(0));
            }
        },
        Message::LocalSearch(SearchMsg::End) => {
            model.state = State::Running;
        },
        Message::GlobalSearch(SearchMsg::End) => {
            model.state = State::Running;
        },
        Message::Escape => {
            match search_owner(model) {
                Some(SearchNode::Tracks(p)) => {
                    let ghost before = model.library.contents@;
                    assert(model@.library.contents[p as int] == before[p as int]@);
                    model.library.contents[p].search.active = false;
                    model.library.contents[p].search.query = String::new();
                    proof {
                        let after = model.library.contents@;
                        assert(after =~= before.update(p as int, after[p as int]));
                        assert(model@.library.contents =~= owner_closed(
                            old(model)@.library,
                        ).contents);
                    }
                },
                Some(SearchNode::Artists) => {
                    model.library.artist_search.active = false;
                    model.library.artist_search.query = String::new();
                },
                Some(SearchNode::Global) => {
                    model.library.global_search.search.active = false;
                    model.library.global_search.search.query = String::new();
                },
                None => {},
            }
        },
        _ => {},
    }
    Step::Done(Update::empty())
}

/// Whether `after` and `step` are what a key typed while the library screen
/// is searched leads to from the model `before`.
pub open spec fn library_search_outcome(
    before: ModelView,
    after: ModelView,
    step: Step,
    k: KeyEvent,
) -> bool {
    match library_key_message(before.library, k) {
        Some(m) => message_outcome(before, after, step, m),
        None => {
            &&& step == Step::Done(Update::empty())
            &&& library_key_outcome(
                before.library,
                after.library,
                k,
                before.prefer_prefix,
                library_top_k(before),
            )
            &&& after == (ModelView { library: after.library, ..before })
        },
    }
}

/// Takes a key typed while the library screen is searched. A key that asks
/// for something else than searching is dealt with as the message it stands
/// for, by the screen that is shown; any other key goes to the search box
/// that owns the keys.
pub fn handle_search(model: &mut Model, k: KeyEvent) -> (step: Step)
    ensures
        library_search_outcome(old(model)@, final(model)@, step, k),
{
    match route_search_key(model, k) {
        Some(m) => {
            proof {
                lemma_key_message_changes_nothing(
                    old(model)@.library,
                    model@.library,
                    k,
                    old(model)@.prefer_prefix,
                    library_top_k(old(model)@),
                );
            }
            handle_msg(model, m)
        },
        None => Step::Done(Update::empty()),
    }
}

/// A key that asks something of the caller leaves the library as it is.
proof fn lemma_key_message_changes_nothing(
    before: LibraryView,
    after: LibraryView,
    k: KeyEvent,
    prefer_prefix: bool,
    top_k: usize,
)
    requires
        library_key_message(before, k) is Some,
        library_key_outcome(before, after, k, prefer_prefix, top_k),
    ensures
        after == before,
{
    match search_owner_of(before) {
        Some(SearchNode::Tracks(p)) => {
            assert(after.contents =~= before.contents);
        },
        _ => {},
    }
}

} // verus!
