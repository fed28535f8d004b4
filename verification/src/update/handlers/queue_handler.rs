//! The queue screen: what each message does to the model, and what it asks
//! of the playback service.

use crate::model::proto::{
    lemma_reclamped_in_bounds, reclamped, selector_in_bounds, Searchable, Selector,
};
use crate::model::search::{is_filter_of, update_filter, SearchView};
use crate::model::selectors::{ListView, QueueSelector};
use crate::model::{
    Dirs, Horizontal, KeyEvent, Message, Model, ModelView, QueueItem, QueueItemView, QueuePlace,
    Screen, SearchMsg, State, Update,
};
use crate::update::handlers::{
    handle_search_k, handle_vertical, lemma_moved_in_bounds, lemma_scrolled_in_bounds, moved,
    scroll_screenful, scrolled, search_key_message, search_key_outcome,
};
use crate::update::{handle_msg, message_outcome};
use crate::util::{add_clamped, safe_add, safe_subtract, sub_clamped};
use crate::view::layout::queue_layout::QueueLayout;
use crate::view::layout::InoriLayout;
use vstd::prelude::*;

verus! {

/// What the model asks of the playback service.
#[derive(Clone, Copy, PartialEq, Eq, Debug)]
pub enum Request {
    /// Play the selected song, which stands at this place of the queue. The
    /// place is missing where the playback service named none for the song;
    /// such a song cannot be played.
    Switch(Option<u32>),
    /// Let the songs at these two rows of the queue change places.
    Swap(usize, usize),
    /// Take the song at this row out of the queue.
    Delete(usize),
}

/// How far a message got: it is dealt with, or the playback service has to
/// act before it can be.
#[derive(Clone, Copy, PartialEq, Eq, Debug)]
pub enum Step {
    /// The message is dealt with; these areas are to be drawn again.
    Done(Update),
    /// The playback service is to do this; `settle_queue` takes what it answers.
    Call(Request),
}

/// The areas that show the playback status and the song that is playing.
pub open spec fn status_and_song() -> Update {
    Update::status().union(Update::current_song())
}

/// The areas that show the playback status and the queue.
pub open spec fn status_and_queue() -> Update {
    Update::status().union(Update::queue())
}

/// The position that a place names.
pub open spec fn place_pos(place: Option<QueuePlace>) -> Option<u32> {
    match place {
        Some(p) => Some(p.pos),
        None => None,
    }
}

/// The row next to `p` on the given side, in a queue of `len` rows.
pub open spec fn neighbour(d: Horizontal, p: usize, len: usize) -> usize {
    match d {
        Horizontal::Left => sub_clamped(p as int, 1, len as int) as usize,
        Horizontal::Right => add_clamped(p as int, 1, len as int) as usize,
    }
}

/// The model and the step that a message leads to on the queue screen, where
/// `page` is the height of the queue's region.
pub open spec fn queue_step(m: ModelView, msg: Message, page: usize) -> (ModelView, Step) {
    let q = m.queue;
    match msg {
        Message::ToggleScreen => (
            ModelView { screen: Screen::Library, ..m },
            Step::Done(Update::empty()),
        ),
        Message::Direction(Dirs::Vert(d)) => (
            ModelView { queue: moved::<QueueSelector>(q, d), ..m },
            Step::Done(Update::empty()),
        ),
        Message::ScrollScreenful(v) => (
            ModelView { queue: scrolled::<QueueSelector>(q, v, page), ..m },
            Step::Done(Update::empty()),
        ),
        Message::Select => match QueueSelector::selected_item_of(q) {
            Some(item) => (m, Step::Call(Request::Switch(place_pos(item.place)))),
            None => (m, Step::Done(status_and_song())),
        },
        Message::Direction(Dirs::Horiz(d)) => match q.selected {
            Some(p) => if QueueSelector::len_of(q) >= 2 {
                (m, Step::Call(Request::Swap(p, neighbour(d, p, QueueSelector::len_of(q)))))
            } else {
                (m, Step::Done(status_and_queue()))
            },
            None => (m, Step::Done(status_and_queue())),
        },
        Message::Delete => match q.selected {
            Some(p) => (m, Step::Call(Request::Delete(p))),
            None => (m, Step::Done(status_and_queue())),
        },
        Message::LocalSearch(SearchMsg::Start) => (
            ModelView {
                state: State::Searching,
                queue: ListView {
                    search: SearchView { active: true, ..q.search },
                    selected: if QueueSelector::len_of(q) != 0 {
                        Some(0)
                    } else {
                        q.selected
                    },
                    ..q
                },
                ..m
            },
            Step::Done(Update::empty()),
        ),
        Message::LocalSearch(SearchMsg::End) => (
            ModelView { state: State::Running, ..m },
            Step::Done(Update::empty()),
        ),
        Message::Escape => (
            ModelView {
                queue: ListView {
                    search: SearchView { active: false, query: Seq::empty(), ..q.search },
                    ..q
                },
                ..m
            },
            Step::Done(Update::empty()),
        ),
        _ => (m, Step::Done(Update::empty())),
    }
}

/// Whether `after` and `step` are what a message leads to from the model
/// `before` on the queue screen. A page is turned by the height of the
/// queue's region in some division of the frame that fits the model.
pub open spec fn queue_message_outcome(
    before: ModelView,
    after: ModelView,
    step: Step,
    msg: Message,
) -> bool {
    if msg is ScrollScreenful {
        exists|regions: QueueLayout|
            #![trigger regions.fits(before.frame_size, before)]
            regions.fits(before.frame_size, before) && (after, step) == queue_step(
                before,
                msg,
                regions.queue.height as usize,
            )
    } else {
        (after, step) == queue_step(before, msg, 0)
    }
}

/// Takes a message on the queue screen. What only the model is needed for
/// is done at once. Where the playback service has to act first, the model
/// is left as it is and the request is handed back. A message that finds
/// nothing to act on, or that this screen does not know, changes nothing.
pub fn handle_queue(model: &mut Model, msg: Message) -> (step: Step)
    ensures
        queue_message_outcome(old(model)@, final(model)@, step, msg),
{
    match msg {
        Message::ToggleScreen => {
            model.screen = Screen::Library;
            Step::Done(Update::empty())
        },
        Message::Direction(Dirs::Vert(d)) => {
            handle_vertical(d, &mut model.queue);
            Step::Done(Update::empty())
        },
        Message::ScrollScreenful(v) => {
            let regions = QueueLayout::new(model.frame_size, model);
            scroll_screenful(v, regions.queue.height as usize, &mut model.queue);
            Step::Done(Update::empty())
        },
        Message::Select => {
            match model.queue.selected_item() {
                Some(item) => Step::Call(
                    Request::Switch(
                        match item.place {
                            Some(place) => Some(place.pos),
                            None => None,
                        },
                    ),
                ),
                None => Step::Done(Update::status().union(Update::current_song())),
            }
        },
        Message::Direction(Dirs::Horiz(d)) => {
            let len = model.queue.len();
            match model.queue.selected() {
                Some(p) => if len >= 2 {
                    let to = match d {
                        Horizontal::Left => safe_subtract(p, 1, len),
                        Horizontal::Right => safe_add(p, 1, len),
                    };
                    Step::Call(Request::Swap(p, to))
                } else {
                    Step::Done(Update::status().union(Update::queue()))
                },
                None => Step::Done(Update::status().union(Update::queue())),
            }
        },
        Message::Delete => {
            match model.queue.selected() {
                Some(p) => Step::Call(Request::Delete(p)),
                None => Step::Done(Update::status().union(Update::queue())),
            }
        },
        Message::LocalSearch(SearchMsg::Start) => {
            model.queue.search.active = true;
            model.state = State::Searching;
            if model.queue.len() != 0 {
                model.queue.set_selected(Some(0));
            }
            Step::Done(Update::empty())
        },
        Message::LocalSearch(SearchMsg::End) => {
            model.state = State::Running;
            Step::Done(Update::empty())
        },
        Message::Escape => {
            model.queue.search.active = false;
            model.queue.search.query = String::new();
            Step::Done(Update::empty())
        },
        _ => Step::Done(Update::empty()),
    }
}

/// The queue and the areas to draw again once the playback service has done
/// what was asked. After a swap the selection follows the song to its new
/// row. After a deletion at row `p` of `len` rows the selection is
/// `sub_clamped(p, 1, len - 1)`. Either way it is then brought back among
/// the rows.
pub open spec fn queue_settled(q: ListView<QueueItemView>, request: Request) -> (
    ListView<QueueItemView>,
    Update,
) {
    match request {
        Request::Switch(_) => (q, status_and_song()),
        Request::Swap(_, to) => (
            reclamped::<QueueSelector>(ListView { selected: Some(to), ..q }),
            status_and_queue(),
        ),
        Request::Delete(p) => (
            reclamped::<QueueSelector>(
                ListView {
                    selected: Some(
                        sub_clamped(p as int, 1, QueueSelector::len_of(q) - 1) as usize,
                    ),
                    ..q
                },
            ),
            status_and_queue(),
        ),
    }
}

/// Takes what the playback service answered to a request. An error is
/// handed on and the model is left as it is. After success the model is
/// brought up to date and the areas to draw again are named.
pub fn settle_queue<E>(model: &mut Model, request: Request, outcome: Result<(), E>) -> (r: Result<
    Update,
    E,
>)
    ensures
        match outcome {
            Ok(_) => r == Ok::<Update, E>(queue_settled(old(model)@.queue, request).1)
                && final(model)@ == (ModelView {
                queue: queue_settled(old(model)@.queue, request).0,
                ..old(model)@
            }),
            Err(e) => r == Err::<Update, E>(e) && final(model)@ == old(model)@,
        },
{
    match outcome {
        Err(e) => Err(e),
        Ok(_) => {
            match request {
                Request::Switch(_) => Ok(Update::status().union(Update::current_song())),
                Request::Swap(_, to) => {
                    model.queue.set_selected(Some(to));
                    model.queue.watch_oob();
                    Ok(Update::status().union(Update::queue()))
                },
                Request::Delete(p) => {
                    let len = model.queue.len();
                    let rest = if len > 0 {
                        len - 1
                    } else {
                        0
                    };
                    model.queue.set_selected(Some(safe_subtract(p, 1, rest)));
                    model.queue.watch_oob();
                    Ok(Update::status().union(Update::queue()))
                },
            }
        },
    }
}

/// No message takes a queue that is in bounds out of bounds, whatever the
/// height of the page.
pub proof fn lemma_queue_step_in_bounds(m: ModelView, msg: Message, page: usize)
    requires
        selector_in_bounds::<QueueSelector>(m.queue),
    ensures
        selector_in_bounds::<QueueSelector>(queue_step(m, msg, page).0.queue),
{
    match msg {
        Message::Direction(Dirs::Vert(d)) => {
            lemma_moved_in_bounds::<QueueSelector>(m.queue, d);
        },
        Message::ScrollScreenful(v) => {
            lemma_scrolled_in_bounds::<QueueSelector>(m.queue, v, page);
        },
        _ => {},
    }
}

/// A queue without rows that is in bounds asks nothing of the playback
/// service: there is nothing to play, to move or to delete.
pub proof fn lemma_empty_queue_asks_nothing(m: ModelView, msg: Message, page: usize)
    requires
        selector_in_bounds::<QueueSelector>(m.queue),
        QueueSelector::len_of(m.queue) == 0,
    ensures
        queue_step(m, msg, page).1 is Done,
        queue_step(m, msg, page).0.queue.selected is None,
{
}

/// Once the playback service has swapped two songs or deleted one, the
/// queue is in bounds, whatever it was before.
pub proof fn lemma_queue_settled_in_bounds(q: ListView<QueueItemView>, request: Request)
    requires
        !(request is Switch),
    ensures
        selector_in_bounds::<QueueSelector>(queue_settled(q, request).0),
{
    match request {
        Request::Swap(_, to) => {
            lemma_reclamped_in_bounds::<QueueSelector>(ListView { selected: Some(to), ..q });
        },
        Request::Delete(p) => {
            lemma_reclamped_in_bounds::<QueueSelector>(
                ListView {
                    selected: Some(
                        sub_clamped(p as int, 1, QueueSelector::len_of(q) - 1) as usize,
                    ),
                    ..q
                },
            );
        },
        _ => {},
    }
}

/// Once the selected song of a queue of more than one row is deleted, the
/// selection is `sub_clamped(p, 1, len - 1)`, which is a row of the queue
/// without the deleted song, and the first visible row is one as well.
pub proof fn lemma_delete_moves_selection(q: ListView<QueueItemView>, p: usize)
    requires
        q.search.cache.len() <= usize::MAX,
        QueueSelector::len_of(q) > 1,
        q.selected == Some(p),
        p < QueueSelector::len_of(q),
    ensures
        queue_settled(q, Request::Delete(p)).0.selected == Some(
            sub_clamped(p as int, 1, QueueSelector::len_of(q) - 1) as usize,
        ),
        sub_clamped(p as int, 1, QueueSelector::len_of(q) - 1) < QueueSelector::len_of(q) - 1,
        queue_settled(q, Request::Delete(p)).0.offset < QueueSelector::len_of(q),
        queue_settled(q, Request::Delete(p)).0 == (ListView {
            selected: queue_settled(q, Request::Delete(p)).0.selected,
            offset: queue_settled(q, Request::Delete(p)).0.offset,
            ..q
        }),
{
}

/// Opening the search of the queue and then escaping from it leaves the
/// query empty and the search closed. The selection is as opening the
/// search left it, and the songs, the first visible row and what the last
/// search found are as they were before.
pub proof fn lemma_search_start_then_escape(m: ModelView, page: usize)
    ensures
        ({
            let started = queue_step(m, Message::LocalSearch(SearchMsg::Start), page).0;
            let escaped = queue_step(started, Message::Escape, page).0;
            &&& escaped.queue.search.query == Seq::<char>::empty()
            &&& !escaped.queue.search.active
            &&& escaped.queue.selected == started.queue.selected
            &&& escaped.queue.selected == (if QueueSelector::len_of(m.queue) != 0 {
                Some(0usize)
            } else {
                m.queue.selected
            })
            &&& escaped.queue.offset == m.queue.offset
            &&& escaped.queue.contents == m.queue.contents
            &&& escaped.queue.search.cache == m.queue.search.cache
            &&& escaped == (ModelView { state: escaped.state, queue: escaped.queue, ..m })
        }),
{
}

/// The rows of the queue that a search keeps: as many as the frame is high.
pub open spec fn queue_top_k(m: ModelView) -> usize {
    m.frame_size.height as usize
}

/// Whether `after` and `step` are what a key typed into the search box of
/// the queue leads to from the model `before`.
pub open spec fn queue_key_outcome(before: ModelView, after: ModelView, step: Step, k: KeyEvent) -> bool {
    match search_key_message(k) {
        Some(m) => message_outcome(before, after, step, m),
        None => {
            &&& step == Step::Done(Update::empty())
            &&& search_key_outcome::<QueueItem, QueueSelector>(
                before.queue,
                after.queue,
                k,
                before.prefer_prefix,
                queue_top_k(before),
            )
            &&& after == (ModelView { queue: after.queue, ..before })
        },
    }
}

/// Takes a key typed into the search box of the queue. A key that asks for
/// something else than searching is dealt with as the message it stands for,
/// by the screen that is shown;
/// any other key changes the query or the selection, and the queue is
/// searched again.
pub fn handle_search(model: &mut Model, k: KeyEvent) -> (step: Step)
    ensures
        queue_key_outcome(old(model)@, final(model)@, step, k),
{
    let top_k = model.frame_size.height as usize;
    match handle_search_k(&mut model.queue, k, &mut model.matcher, top_k) {
        Some(m) => handle_msg(model, m),
        None => Step::Done(Update::empty()),
    }
}

/// Takes the queue as the playback service has it now. The songs are
/// replaced; the query and the cursor stay. The queue is searched again for
/// the query, for as many rows as the frame is high, and the cursor is
/// brought back among the rows that the search left.
pub fn refresh_queue(model: &mut Model, contents: Vec<QueueItem>)
    ensures
        ({
            let before = old(model)@.queue;
            let songs = contents@.map_values(|i: QueueItem| i@);
            let found = final(model)@.queue.search.cache;
            &&& is_filter_of(
                found,
                before.search.query,
                QueueSelector::haystacks_of(ListView { contents: songs, ..before }),
                old(model)@.prefer_prefix,
                Some(queue_top_k(old(model)@)),
            )
            &&& final(model)@ == (ModelView {
                queue: reclamped::<QueueSelector>(
                    ListView {
                        contents: songs,
                        search: SearchView { cache: found, ..before.search },
                        ..before
                    },
                ),
                ..old(model)@
            })
        }),
{
    let top_k = model.frame_size.height as usize;
    model.queue.contents = contents;
    update_filter(&mut model.queue, &mut model.matcher, Some(top_k));
    model.queue.watch_oob();
}

} // verus!
