//! Moving about in a list, turning its pages, and typing into its search box.

use crate::model::proto::{
    clamped_offset, clamped_selected, reclamped, selector_in_bounds, Searchable, Selector,
};
use crate::model::search::{is_filter_of, update_filter, Scorer, SearchView};
use crate::model::selectors::{item_at, ranks_follow, ArtistData, ArtistView};
use crate::model::{InfoEntry, InfoView, KeyCode, KeyEvent, Message, SearchMsg, Vertical};
use crate::util::{add_clamped, pop_char, push_char, safe_add, safe_subtract, sub_clamped};
use vstd::prelude::*;

pub mod library_handler;
pub mod queue_handler;

verus! {

/// The rows that a page turned downwards keeps in sight of the page before.
pub const PAGE_OVERLAP: usize = 3;

/// The row that a vertical move leads to from the selected row `sel`.
pub open spec fn vertical_target(msg: Vertical, sel: usize, len: usize) -> usize {
    match msg {
        Vertical::Up => sub_clamped(sel as int, 1, len as int) as usize,
        Vertical::Down => add_clamped(sel as int, 1, len as int) as usize,
        Vertical::Top => 0,
        Vertical::Bottom => sub_clamped(len as int, 1, len as int) as usize,
    }
}

/// The selection after a vertical move: with nothing selected, any move
/// selects the first row of a list that has one.
pub open spec fn selection_after(msg: Vertical, selected: Option<usize>, len: usize) -> Option<
    usize,
> {
    match selected {
        None => if len != 0 {
            Some(0)
        } else {
            None
        },
        Some(sel) => Some(vertical_target(msg, sel, len)),
    }
}

/// The list after a vertical move.
pub open spec fn moved<S: Selector>(v: S::V, msg: Vertical) -> S::V {
    match S::selected_of(v) {
        None => if S::len_of(v) != 0 {
            S::put_selected(v, Some(0))
        } else {
            v
        },
        Some(sel) => S::put_selected(v, Some(vertical_target(msg, sel, S::len_of(v)))),
    }
}

/// Moves the selection by one row, or to the first or the last row. The
/// selection stops at either end of the list.
pub fn handle_vertical<S: Selector>(msg: Vertical, selector: &mut S)
    ensures
        final(selector)@ == moved::<S>(old(selector)@, msg),
{
    match selector.selected() {
        None => {
            if selector.len() != 0 {
                selector.set_selected(Some(0));
            }
        },
        Some(sel) => {
            let len = selector.len();
            let target = match msg {
                Vertical::Up => safe_subtract(sel, 1, len),
                Vertical::Down => safe_add(sel, 1, len),
                Vertical::Top => 0,
                Vertical::Bottom => safe_subtract(len, 1, len),
            };
            selector.set_selected(Some(target));
        },
    }
}

/// The selection after the vertical moves `msgs`, made one after the other.
pub open spec fn selection_after_all(msgs: Seq<Vertical>, selected: Option<usize>, len: usize) -> Option<
    usize,
>
    decreases msgs.len(),
{
    if msgs.len() == 0 {
        selected
    } else {
        selection_after(msgs.last(), selection_after_all(msgs.drop_last(), selected, len), len)
    }
}

/// Whether the selection, if there is one, is a row of a list of `len` rows.
pub open spec fn selection_in_range(selected: Option<usize>, len: usize) -> bool {
    selected matches Some(s) ==> s < len
}

/// A vertical move changes the selection as `selection_after` says, and
/// neither the number of rows nor the first visible row.
pub proof fn lemma_moved_selection<S: Selector>(v: S::V, msg: Vertical)
    ensures
        S::selected_of(moved::<S>(v, msg)) == selection_after(msg, S::selected_of(v), S::len_of(v)),
        S::len_of(moved::<S>(v, msg)) == S::len_of(v),
        S::offset_of(moved::<S>(v, msg)) == S::offset_of(v),
{
    match S::selected_of(v) {
        None => {
            if S::len_of(v) != 0 {
                S::lemma_put_selected(v, Some(0));
            }
        },
        Some(sel) => {
            S::lemma_put_selected(v, Some(vertical_target(msg, sel, S::len_of(v))));
        },
    }
}

/// A vertical move leaves a list that is in bounds in bounds.
pub proof fn lemma_moved_in_bounds<S: Selector>(v: S::V, msg: Vertical)
    requires
        selector_in_bounds::<S>(v),
    ensures
        selector_in_bounds::<S>(moved::<S>(v, msg)),
{
    lemma_moved_selection::<S>(v, msg);
}

/// A selection that is a row of the list is one after any vertical move.
pub proof fn lemma_move_stays_in_range(msg: Vertical, selected: Option<usize>, len: usize)
    requires
        selection_in_range(selected, len),
    ensures
        selection_in_range(selection_after(msg, selected, len), len),
{
}

/// A selection that is a row of the list is one after any sequence of
/// vertical moves.
pub proof fn lemma_moves_stay_in_range(msgs: Seq<Vertical>, selected: Option<usize>, len: usize)
    requires
        selection_in_range(selected, len),
    ensures
        selection_in_range(selection_after_all(msgs, selected, len), len),
    decreases msgs.len(),
{
    if msgs.len() > 0 {
        lemma_moves_stay_in_range(msgs.drop_last(), selected, len);
        lemma_move_stays_in_range(
            msgs.last(),
            selection_after_all(msgs.drop_last(), selected, len),
            len,
        );
    }
}

/// The list after a page was turned. Upwards, the first visible row becomes
/// the selected one and the page starts `height` rows earlier. Downwards,
/// the row `height` rows after the first visible one becomes the selected
/// one; where it is neither the first nor the last row of the list, the page
/// starts `PAGE_OVERLAP` rows before it. A list without rows has no page to
/// turn and stays as it is.
pub open spec fn scrolled<S: Selector>(v: S::V, dir: Vertical, height: usize) -> S::V {
    if S::len_of(v) == 0 {
        v
    } else {
        scrolled_rows::<S>(v, dir, height)
    }
}

/// The list after a page was turned, for a list that has a row.
pub open spec fn scrolled_rows<S: Selector>(v: S::V, dir: Vertical, height: usize) -> S::V {
    let len = S::len_of(v) as int;
    let offset = S::offset_of(v);
    match dir {
        Vertical::Up => S::put_offset(
            S::put_selected(v, Some(offset)),
            sub_clamped(offset as int, height as int, len) as usize,
        ),
        Vertical::Down => {
            let next = add_clamped(offset as int, height as int, len);
            if 0 < next < sub_clamped(len, 1, len) {
                S::put_selected(
                    S::put_offset(v, sub_clamped(next, PAGE_OVERLAP as int, len) as usize),
                    Some(next as usize),
                )
            } else {
                S::put_selected(v, Some(next as usize))
            }
        },
        _ => v,
    }
}

/// Turning a page of a list that is in bounds leaves it in bounds, with as
/// many rows as before.
pub proof fn lemma_scrolled_in_bounds<S: Selector>(v: S::V, dir: Vertical, height: usize)
    requires
        selector_in_bounds::<S>(v),
    ensures
        selector_in_bounds::<S>(scrolled::<S>(v, dir, height)),
        S::len_of(scrolled::<S>(v, dir, height)) == S::len_of(v),
{
    if S::len_of(v) != 0 {
        lemma_scrolled_rows_in_bounds::<S>(v, dir, height);
    }
}

proof fn lemma_scrolled_rows_in_bounds<S: Selector>(v: S::V, dir: Vertical, height: usize)
    requires
        S::len_of(v) > 0,
        selector_in_bounds::<S>(v),
    ensures
        selector_in_bounds::<S>(scrolled_rows::<S>(v, dir, height)),
        S::len_of(scrolled_rows::<S>(v, dir, height)) == S::len_of(v),
{
    let len = S::len_of(v) as int;
    let offset = S::offset_of(v);
    match dir {
        Vertical::Up => {
            S::lemma_put_selected(v, Some(offset));
            S::lemma_put_offset(
                S::put_selected(v, Some(offset)),
                sub_clamped(offset as int, height as int, len) as usize,
            );
        },
        Vertical::Down => {
            let next = add_clamped(offset as int, height as int, len);
            if 0 < next < sub_clamped(len, 1, len) {
                let pulled = sub_clamped(next, PAGE_OVERLAP as int, len) as usize;
                S::lemma_put_offset(v, pulled);
                S::lemma_put_selected(S::put_offset(v, pulled), Some(next as usize));
            } else {
                S::lemma_put_selected(v, Some(next as usize));
            }
        },
        _ => {},
    }
}

/// Turns a page of `height` rows up or down. A list without rows is left
/// as it is.
pub fn scroll_screenful<S: Selector>(dir: Vertical, height: usize, selector: &mut S)
    ensures
        final(selector)@ == scrolled::<S>(old(selector)@, dir, height),
{
    let len = selector.len();
    if len == 0 {
        return ;
    }
    match dir {
        Vertical::Up => {
            let offset = selector.offset();
            selector.set_selected(Some(offset));
            selector.set_offset(safe_subtract(offset, height, len));
        },
        Vertical::Down => {
            let next = safe_add(selector.offset(), height, len);
            if next > 0 && next < safe_subtract(len, 1, len) {
                selector.set_offset(safe_subtract(next, PAGE_OVERLAP, len));
            }
            selector.set_selected(Some(next));
        },
        _ => {},
    }
}

/// What a key typed into a search box asks of its caller: Tab to change
/// screens, Escape to leave the search, Enter to act on the selected row.
pub open spec fn search_key_message(k: KeyEvent) -> Option<Message> {
    if k.control {
        None
    } else {
        match k.code {
            KeyCode::Tab => Some(Message::ToggleScreen),
            KeyCode::Esc => Some(Message::LocalSearch(SearchMsg::End)),
            KeyCode::Enter => Some(Message::Select),
            _ => None,
        }
    }
}

/// The list after a key was typed into its search box, before it is searched
/// again: Control-u empties the query, Control-n and Control-p move the
/// selection down and up, a character is added to the query and Backspace
/// takes the last one away.
pub open spec fn key_applied<T: View, S: Searchable<T>>(v: S::V, k: KeyEvent) -> S::V {
    let search = S::search_of(v);
    if k.control {
        match k.code {
            KeyCode::Char(c) => if c == 'u' {
                S::put_search(v, SearchView { query: Seq::empty(), ..search })
            } else if c == 'n' {
                moved::<S>(v, Vertical::Down)
            } else if c == 'p' {
                moved::<S>(v, Vertical::Up)
            } else {
                v
            },
            _ => v,
        }
    } else {
        match k.code {
            KeyCode::Char(c) => S::put_search(v, SearchView { query: search.query.push(c), ..search }),
            KeyCode::Backspace => S::put_search(
                v,
                SearchView {
                    query: if search.query.len() > 0 {
                        search.query.drop_last()
                    } else {
                        search.query
                    },
                    ..search
                },
            ),
            _ => v,
        }
    }
}

/// Whether `after` is the list `before` once a key was typed into its search
/// box. A key that asks something of the caller changes nothing. Any other
/// key is applied as `key_applied` says; the cache is then what a search for
/// the query finds among the rows, cut after `top_k` matches, and the cursor
/// is brought back among the rows that the search left.
pub open spec fn search_key_outcome<T: View, S: Searchable<T>>(
    before: S::V,
    after: S::V,
    k: KeyEvent,
    prefer_prefix: bool,
    top_k: usize,
) -> bool {
    if search_key_message(k) is Some {
        after == before
    } else {
        let typed = key_applied::<T, S>(before, k);
        let found = S::search_of(after).cache;
        &&& is_filter_of(
            found,
            S::search_of(typed).query,
            S::haystacks_of(typed),
            prefer_prefix,
            Some(top_k),
        )
        &&& after == reclamped::<S>(
            S::put_search(typed, SearchView { cache: found, ..S::search_of(typed) }),
        )
    }
}

/// Takes a key typed into the search box of a list. A key that asks
/// something of the caller is handed back as a message and changes nothing.
/// Any other key is applied, the list is searched again for at most `top_k`
/// matches, and the cursor is brought back among the rows that are left.
pub fn handle_search_k<T: View, S: Searchable<T>>(
    s: &mut S,
    k: KeyEvent,
    matcher: &mut Scorer,
    top_k: usize,
) -> (msg: Option<Message>)
    ensures
        msg == search_key_message(k),
        final(matcher).prefer_prefix == old(matcher).prefer_prefix,
        search_key_outcome::<T, S>(old(s)@, final(s)@, k, old(matcher).prefer_prefix, top_k),
{
    if k.control {
        match k.code {
            KeyCode::Char(c) => {
                if c == 'u' {
                    let f = s.filter_mut();
                    f.query = String::new();
                } else if c == 'n' {
                    handle_vertical(Vertical::Down, s);
                } else if c == 'p' {
                    handle_vertical(Vertical::Up, s);
                }
            },
            _ => {},
        }
    } else {
        match k.code {
            KeyCode::Char(c) => {
                let f = s.filter_mut();
                push_char(&mut f.query, c);
            },
            KeyCode::Backspace => {
                let f = s.filter_mut();
                let _ = pop_char(&mut f.query);
            },
            KeyCode::Tab => {
                return Some(Message::ToggleScreen);
            },
            KeyCode::Esc => {
                return Some(Message::LocalSearch(SearchMsg::End));
            },
            KeyCode::Enter => {
                return Some(Message::Select);
            },
            _ => {},
        }
    }
    let ghost typed = s@;
    assert(typed == key_applied::<T, S>(old(s)@, k));
    update_filter(s, matcher, Some(top_k));
    let ghost searched = s@;
    s.watch_oob();
    proof {
        let found = S::search_of(searched).cache;
        S::lemma_put_search(typed, SearchView { cache: found, ..S::search_of(typed) });
        let sel = clamped_selected(S::selected_of(searched), S::len_of(searched));
        let off = clamped_offset(S::offset_of(searched), S::len_of(searched));
        S::lemma_cursor_keeps_search(searched, sel, off);
        S::lemma_cursor_keeps_search(S::put_selected(searched, sel), sel, off);
    }
    None
}

/// The first track from `start` on that has the given rank.
pub open spec fn rank_position_from(entries: Seq<InfoView>, rank: int, start: int) -> Option<usize>
    decreases entries.len() - start,
{
    if start < 0 || start >= entries.len() {
        None
    } else if entries[start].rank == Some(rank as usize) && rank <= usize::MAX {
        Some(start as usize)
    } else {
        rank_position_from(entries, rank, start + 1)
    }
}

/// The first track that has the given rank.
pub open spec fn rank_position(entries: Seq<InfoView>, rank: int) -> Option<usize> {
    rank_position_from(entries, rank, 0)
}

proof fn lemma_no_rank_beyond(entries: Seq<InfoView>, rank: int, start: int)
    requires
        rank > usize::MAX,
    ensures
        rank_position_from(entries, rank, start) is None,
    decreases entries.len() - start,
{
    if 0 <= start < entries.len() {
        lemma_no_rank_beyond(entries, rank, start + 1);
    }
}

fn find_rank(entries: &Vec<InfoEntry>, rank: usize) -> (idx: Option<usize>)
    ensures
        idx == rank_position(entries@.map_values(|e: InfoEntry| e@), rank as int),
{
    let ghost shown = entries@.map_values(|e: InfoEntry| e@);
    let mut i: usize = 0;
    while i < entries.len()
        invariant
            i <= entries.len(),
            shown == entries@.map_values(|e: InfoEntry| e@),
            rank_position(shown, rank as int) == rank_position_from(shown, rank as int, i as int),
        decreases entries.len() - i,
    {
        assert(shown[i as int] == entries[i as int]@);
        match entries[i].rank {
            Some(r) => {
                if r == rank {
                    return Some(i);
                }
            },
            None => {},
        }
        i += 1;
    }
    None
}

/// The rank of the selected track.
pub open spec fn selected_rank(v: ArtistView) -> Option<usize> {
    match item_at(v.contents, v.selected) {
        Some(e) => e.rank,
        None => None,
    }
}

/// The tracks with the selection on the next match: the track whose rank is
/// one more than that of the selected track, where there is one.
pub open spec fn next_match_selected(v: ArtistView) -> ArtistView {
    match selected_rank(v) {
        Some(r) => match rank_position(v.contents, r + 1) {
            Some(i) => ArtistView { selected: Some(i), ..v },
            None => v,
        },
        None => v,
    }
}

/// The tracks with the selection on the match before: the track whose rank
/// is one less than that of the selected track, unless that is the first match.
pub open spec fn previous_match_selected(v: ArtistView) -> ArtistView {
    match selected_rank(v) {
        Some(r) => if r > 0 {
            ArtistView { selected: rank_position(v.contents, r - 1), ..v }
        } else {
            v
        },
        None => v,
    }
}

/// What a key typed into the search box of an artist's tracks asks of its
/// caller: Escape to leave the search, Enter to act on the selected track.
pub open spec fn tracksel_key_message(k: KeyEvent) -> Option<Message> {
    if k.control {
        None
    } else {
        match k.code {
            KeyCode::Esc => Some(Message::LocalSearch(SearchMsg::End)),
            KeyCode::Enter => Some(Message::Select),
            _ => None,
        }
    }
}

/// The tracks after a key was typed into their search box, before they are
/// searched again: Control-u empties the query, Control-n and Control-p step
/// to the next match and the one before, a character is added to the query
/// and Backspace takes the last one away.
pub open spec fn tracksel_key_applied(v: ArtistView, k: KeyEvent) -> ArtistView {
    if k.control {
        match k.code {
            KeyCode::Char(c) => if c == 'u' {
                ArtistView { search: SearchView { query: Seq::empty(), ..v.search }, ..v }
            } else if c == 'n' {
                next_match_selected(v)
            } else if c == 'p' {
                previous_match_selected(v)
            } else {
                v
            },
            _ => v,
        }
    } else {
        match k.code {
            KeyCode::Char(c) => ArtistView {
                search: SearchView { query: v.search.query.push(c), ..v.search },
                ..v
            },
            KeyCode::Backspace => ArtistView {
                search: SearchView {
                    query: if v.search.query.len() > 0 {
                        v.search.query.drop_last()
                    } else {
                        v.search.query
                    },
                    ..v.search
                },
                ..v
            },
            _ => v,
        }
    }
}

/// Whether `after` is the artist `before` once a key was typed into the
/// search box of the tracks. A key that asks something of the caller changes
/// nothing. Any other key is applied as `tracksel_key_applied` says; the
/// cache is then what a search for the query finds among the tracks, and the
/// tracks are ranked by it, and the cursor is brought back among the tracks.
pub open spec fn tracksel_key_outcome(
    before: ArtistView,
    after: ArtistView,
    k: KeyEvent,
    prefer_prefix: bool,
) -> bool {
    if tracksel_key_message(k) is Some {
        after == before
    } else {
        let typed = tracksel_key_applied(before, k);
        let found = after.search.cache;
        &&& is_filter_of(
            found,
            typed.search.query,
            ArtistData::haystacks_of(typed),
            prefer_prefix,
            None,
        )
        &&& ranks_follow(after.contents, typed.contents, found)
        &&& after == reclamped::<ArtistData>(
            ArtistView {
                contents: after.contents,
                search: SearchView { cache: found, ..typed.search },
                ..typed
            },
        )
    }
}

/// Takes a key typed into the search box of an artist's tracks. A key that
/// asks something of the caller is handed back as a message and changes
/// nothing. Any other key is applied, the tracks are searched and ranked
/// again, and the cursor is brought back among them.
pub fn handle_search_k_tracksel(artist: &mut ArtistData, k: KeyEvent, matcher: &mut Scorer) -> (msg:
    Option<Message>)
    ensures
        msg == tracksel_key_message(k),
        final(matcher).prefer_prefix == old(matcher).prefer_prefix,
        tracksel_key_outcome(old(artist)@, final(artist)@, k, old(matcher).prefer_prefix),
{
    if k.control {
        match k.code {
            KeyCode::Char(c) => {
                if c == 'u' {
                    artist.search.query = String::new();
                } else if c == 'n' {
                    if let Some(item) = artist.selected_item() {
                        if let Some(r) = item.rank {
                            if r < usize::MAX {
                                let idx = find_rank(&artist.contents, r + 1);
                                if idx.is_some() {
                                    artist.set_selected(idx);
                                }
                            } else {
                                proof {
                                    lemma_no_rank_beyond(artist@.contents, r + 1, 0);
                                }
                            }
                        }
                    }
                } else if c == 'p' {
                    if let Some(item) = artist.selected_item() {
                        if let Some(r) = item.rank {
                            if r > 0 {
                                let idx = find_rank(&artist.contents, r - 1);
                                artist.set_selected(idx);
                            }
                        }
                    }
                }
            },
            _ => {},
        }
    } else {
        match k.code {
            KeyCode::Char(c) => {
                push_char(&mut artist.search.query, c);
            },
            KeyCode::Backspace => {
                let _ = pop_char(&mut artist.search.query);
            },
            KeyCode::Esc => {
                return Some(Message::LocalSearch(SearchMsg::End));
            },
            KeyCode::Enter => {
                return Some(Message::Select);
            },
            _ => {},
        }
    }
    assert(artist@ == tracksel_key_applied(old(artist)@, k));
    artist.update_search(matcher);
    None
}

} // verus!
