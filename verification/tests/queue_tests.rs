use inori::event_handler::{tick_due, POLL_TIME_MS, TICK_INTERVAL_MS};
use inori::model::proto::{Searchable, Selector};
use inori::model::search::{all_rows, Scorer};
use inori::model::selectors::{LibraryState, QueueSelector};
use inori::model::{
    Dirs, Horizontal, KeyCode, KeyEvent, Message, Model, QueueItem, QueuePlace, Screen, SearchMsg,
    Song, State, Status, Update, Vertical,
};
use inori::update::handlers::queue_handler::{
    handle_queue, handle_search, refresh_queue, settle_queue, Request, Step,
};
use inori::util::safe_subtract;
use inori::view::Rect;

fn queue_of(n: u32) -> QueueSelector {
    let items = (0..n)
        .map(|i| QueueItem {
            song: Song {
                title: Some(format!("track {}", i)),
                artist: Some("someone".to_string()),
                duration: None,
                tags: vec![],
            },
            place: Some(QueuePlace { id: 100 + i, pos: 10 * i, prio: 0 }),
        })
        .collect();
    QueueSelector::new(items)
}

fn model_with_queue(n: u32) -> Model {
    Model {
        state: State::Running,
        screen: Screen::Queue,
        status: Status { elapsed: None, duration: None, song: None },
        library: LibraryState::new(vec![], vec![]),
        queue: queue_of(n),
        frame_size: Rect { x: 0, y: 0, width: 80, height: 24 },
        matcher: Scorer::new(false),
    }
}

fn status_and_queue() -> Update {
    Update { status: true, queue: true, current_song: false }
}

fn status_and_song() -> Update {
    Update { status: true, queue: false, current_song: true }
}

#[test]
fn update_union_joins_areas() {
    assert_eq!(Update::status().union(Update::queue()), status_and_queue());
    assert_eq!(Update::status().union(Update::current_song()), status_and_song());
    assert_eq!(Update::empty().union(Update::empty()), Update::empty());
    assert_eq!(
        Update::empty(),
        Update { status: false, queue: false, current_song: false }
    );
}

#[test]
fn toggle_screen_goes_to_library() {
    let mut m = model_with_queue(2);
    assert_eq!(handle_queue(&mut m, Message::ToggleScreen), Step::Done(Update::empty()));
    assert_eq!(m.screen, Screen::Library);
}

#[test]
fn vertical_message_moves_selection() {
    let mut m = model_with_queue(3);
    let step = handle_queue(&mut m, Message::Direction(Dirs::Vert(Vertical::Down)));
    assert_eq!(step, Step::Done(Update::empty()));
    assert_eq!(m.queue.selected(), Some(0));
    handle_queue(&mut m, Message::Direction(Dirs::Vert(Vertical::Bottom)));
    assert_eq!(m.queue.selected(), Some(2));
}

#[test]
fn scroll_message_uses_height_of_queue_region() {
    let mut m = model_with_queue(100);
    let step = handle_queue(&mut m, Message::ScrollScreenful(Vertical::Down));
    assert_eq!(step, Step::Done(Update::empty()));
    assert_eq!(m.queue.selected(), Some(17));
    assert_eq!(m.queue.offset(), 14);
    m.queue.search.active = true;
    m.queue.set_offset(0);
    handle_queue(&mut m, Message::ScrollScreenful(Vertical::Down));
    assert_eq!(m.queue.selected(), Some(14));
    assert_eq!(m.queue.offset(), 11);
}

#[test]
fn select_asks_to_switch_to_selected_place() {
    let mut m = model_with_queue(4);
    m.queue.set_selected(Some(2));
    assert_eq!(handle_queue(&mut m, Message::Select), Step::Call(Request::Switch(Some(20))));
    let r: Result<Update, String> = settle_queue(&mut m, Request::Switch(Some(20)), Ok(()));
    assert_eq!(r, Ok(status_and_song()));
    assert_eq!(m.queue.selected(), Some(2));
}

#[test]
fn select_without_selection_asks_nothing() {
    let mut m = model_with_queue(4);
    assert_eq!(handle_queue(&mut m, Message::Select), Step::Done(status_and_song()));
    let mut empty = model_with_queue(0);
    assert_eq!(handle_queue(&mut empty, Message::Select), Step::Done(status_and_song()));
}

#[test]
fn queue_swap_asks_then_follows() {
    let mut m = model_with_queue(4);
    m.queue.set_selected(Some(1));
    let step = handle_queue(&mut m, Message::Direction(Dirs::Horiz(Horizontal::Right)));
    assert_eq!(step, Step::Call(Request::Swap(1, 2)));
    assert_eq!(m.queue.selected(), Some(1));
    let r: Result<Update, String> = settle_queue(&mut m, Request::Swap(1, 2), Ok(()));
    assert_eq!(r, Ok(status_and_queue()));
    assert_eq!(m.queue.selected(), Some(2));
    let step = handle_queue(&mut m, Message::Direction(Dirs::Horiz(Horizontal::Left)));
    assert_eq!(step, Step::Call(Request::Swap(2, 1)));
}

#[test]
fn queue_swap_is_clamped_at_the_ends() {
    let mut m = model_with_queue(3);
    m.queue.set_selected(Some(2));
    let step = handle_queue(&mut m, Message::Direction(Dirs::Horiz(Horizontal::Right)));
    assert_eq!(step, Step::Call(Request::Swap(2, 2)));
    m.queue.set_selected(Some(0));
    let step = handle_queue(&mut m, Message::Direction(Dirs::Horiz(Horizontal::Left)));
    assert_eq!(step, Step::Call(Request::Swap(0, 0)));
}

#[test]
fn queue_swap_needs_two_rows_and_a_selection() {
    let mut one = model_with_queue(1);
    one.queue.set_selected(Some(0));
    let step = handle_queue(&mut one, Message::Direction(Dirs::Horiz(Horizontal::Right)));
    assert_eq!(step, Step::Done(status_and_queue()));
    let mut none = model_with_queue(5);
    let step = handle_queue(&mut none, Message::Direction(Dirs::Horiz(Horizontal::Left)));
    assert_eq!(step, Step::Done(status_and_queue()));
}

#[test]
fn failed_request_is_handed_on_and_changes_nothing() {
    let mut m = model_with_queue(4);
    m.queue.set_selected(Some(1));
    let r = settle_queue(&mut m, Request::Swap(1, 2), Err("connection lost".to_string()));
    assert_eq!(r, Err("connection lost".to_string()));
    assert_eq!(m.queue.selected(), Some(1));
    let r = settle_queue(&mut m, Request::Delete(1), Err(7u8));
    assert_eq!(r, Err(7u8));
    assert_eq!(m.queue.selected(), Some(1));
    let r = settle_queue(&mut m, Request::Switch(Some(10)), Err(()));
    assert_eq!(r, Err(()));
}

#[test]
fn delete_asks_then_moves_selection_up() {
    for n in 2..7u32 {
        for p in 0..n as usize {
            let mut m = model_with_queue(n);
            m.queue.set_selected(Some(p));
            assert_eq!(handle_queue(&mut m, Message::Delete), Step::Call(Request::Delete(p)));
            let r: Result<Update, String> = settle_queue(&mut m, Request::Delete(p), Ok(()));
            assert_eq!(r, Ok(status_and_queue()));
            let expected = safe_subtract(p, 1, n as usize - 1);
            assert_eq!(m.queue.selected(), Some(expected));
            assert!(expected < n as usize - 1);
        }
    }
    let mut m = model_with_queue(5);
    m.queue.set_selected(Some(4));
    settle_queue::<String>(&mut m, Request::Delete(4), Ok(())).unwrap();
    assert_eq!(m.queue.selected(), Some(3));
    m.queue.set_selected(Some(1));
    settle_queue::<String>(&mut m, Request::Delete(1), Ok(())).unwrap();
    assert_eq!(m.queue.selected(), Some(0));
}

#[test]
fn delete_in_queue_of_one_selects_first_row() {
    let mut m = model_with_queue(1);
    m.queue.set_selected(Some(0));
    assert_eq!(handle_queue(&mut m, Message::Delete), Step::Call(Request::Delete(0)));
    settle_queue::<String>(&mut m, Request::Delete(0), Ok(())).unwrap();
    assert_eq!(m.queue.selected(), Some(0));
}

#[test]
fn delete_without_selection_asks_nothing() {
    let mut m = model_with_queue(0);
    assert_eq!(handle_queue(&mut m, Message::Delete), Step::Done(status_and_queue()));
    let mut m = model_with_queue(3);
    assert_eq!(handle_queue(&mut m, Message::Delete), Step::Done(status_and_queue()));
}

#[test]
fn settle_brings_selection_back_in_range() {
    let mut m = model_with_queue(3);
    settle_queue::<String>(&mut m, Request::Swap(1, 9), Ok(())).unwrap();
    assert_eq!(m.queue.selected(), Some(2));
    let mut empty = model_with_queue(0);
    settle_queue::<String>(&mut empty, Request::Delete(5), Ok(())).unwrap();
    assert_eq!(empty.queue.selected(), None);
}

#[test]
fn search_start_then_escape() {
    let mut m = model_with_queue(5);
    m.queue.set_selected(Some(3));
    m.queue.set_offset(2);
    let step = handle_queue(&mut m, Message::LocalSearch(SearchMsg::Start));
    assert_eq!(step, Step::Done(Update::empty()));
    assert!(m.queue.search.active);
    assert_eq!(m.state, State::Searching);
    assert_eq!(m.queue.selected(), Some(0));
    handle_search(&mut m, KeyEvent { code: KeyCode::Char('4'), control: false });
    assert_eq!(m.queue.search.query, "4");
    let step = handle_queue(&mut m, Message::Escape);
    assert_eq!(step, Step::Done(Update::empty()));
    assert!(!m.queue.search.active);
    assert_eq!(m.queue.search.query, "");
    assert_eq!(m.queue.selected(), Some(0));
}

#[test]
fn search_start_then_escape_at_once() {
    let mut m = model_with_queue(5);
    m.queue.set_selected(Some(3));
    m.queue.set_offset(2);
    handle_queue(&mut m, Message::LocalSearch(SearchMsg::Start));
    handle_queue(&mut m, Message::Escape);
    assert!(!m.queue.search.active);
    assert_eq!(m.queue.search.query, "");
    assert_eq!(m.queue.selected(), Some(0));
    assert_eq!(m.queue.offset(), 2);
    assert_eq!(m.queue.search.cache.matched_indices, all_rows(5));
    assert_eq!(m.state, State::Searching);
}

#[test]
fn search_start_on_empty_queue_selects_nothing() {
    let mut m = model_with_queue(0);
    handle_queue(&mut m, Message::LocalSearch(SearchMsg::Start));
    assert!(m.queue.search.active);
    assert_eq!(m.state, State::Searching);
    assert_eq!(m.queue.selected(), None);
}

#[test]
fn search_end_keeps_query() {
    let mut m = model_with_queue(3);
    handle_queue(&mut m, Message::LocalSearch(SearchMsg::Start));
    handle_search(&mut m, KeyEvent { code: KeyCode::Char('t'), control: false });
    let step = handle_search(&mut m, KeyEvent { code: KeyCode::Esc, control: false });
    assert_eq!(step, Step::Done(Update::empty()));
    assert_eq!(m.state, State::Running);
    assert_eq!(m.queue.search.query, "t");
    assert!(m.queue.search.active);
}

#[test]
fn unknown_message_changes_nothing() {
    let mut m = model_with_queue(3);
    m.queue.set_selected(Some(1));
    let step = handle_queue(&mut m, Message::GlobalSearch(SearchMsg::Start));
    assert_eq!(step, Step::Done(Update::empty()));
    assert_eq!(m.queue.selected(), Some(1));
    assert_eq!(m.state, State::Running);
    assert_eq!(m.screen, Screen::Queue);
    assert!(!m.queue.search.active);
}

#[test]
fn search_keys_filter_the_queue() {
    let mut m = model_with_queue(12);
    handle_queue(&mut m, Message::LocalSearch(SearchMsg::Start));
    for c in "track 1".chars() {
        let step = handle_search(&mut m, KeyEvent { code: KeyCode::Char(c), control: false });
        assert_eq!(step, Step::Done(Update::empty()));
    }
    assert_eq!(m.queue.search.query, "track 1");
    let rows: Vec<usize> =
        m.queue.search.cache.matched_indices.iter().map(|x| x.position).collect();
    assert_eq!(rows, vec![1, 10, 11]);
    assert_eq!(m.queue.len(), 3);
    m.queue.set_selected(Some(2));
    assert_eq!(m.queue.selected_item().and_then(|i| i.place).map(|p| p.pos), Some(110));
    let step = handle_search(&mut m, KeyEvent { code: KeyCode::Enter, control: false });
    assert_eq!(step, Step::Call(Request::Switch(Some(110))));
    let step = handle_search(&mut m, KeyEvent { code: KeyCode::Tab, control: false });
    assert_eq!(step, Step::Done(Update::empty()));
    assert_eq!(m.screen, Screen::Library);
}

#[test]
fn search_keeps_as_many_rows_as_the_frame_is_high() {
    let mut m = model_with_queue(40);
    m.frame_size = Rect { x: 0, y: 0, width: 80, height: 6 };
    handle_search(&mut m, KeyEvent { code: KeyCode::Char('t'), control: false });
    assert_eq!(m.queue.len(), 6);
}

#[test]
fn tick_is_due_only_when_idle() {
    assert_eq!(TICK_INTERVAL_MS, 500);
    assert_eq!(POLL_TIME_MS, 16);
    assert!(tick_due(500, 500));
    assert!(tick_due(10_000, 501));
    assert!(!tick_due(499, 500));
    assert!(!tick_due(500, 499));
    assert!(!tick_due(0, 0));
}

#[test]
fn empty_queue_asks_nothing_after_a_page_turn() {
    for dir in [Vertical::Up, Vertical::Down] {
        let mut m = model_with_queue(0);
        assert_eq!(handle_queue(&mut m, Message::ScrollScreenful(dir)), Step::Done(Update::empty()));
        assert_eq!(m.queue.selected(), None);
        assert_eq!(m.queue.offset(), 0);
        assert_eq!(handle_queue(&mut m, Message::Delete), Step::Done(status_and_queue()));
        assert_eq!(handle_queue(&mut m, Message::Select), Step::Done(status_and_song()));
        let step = handle_queue(&mut m, Message::Direction(Dirs::Horiz(Horizontal::Left)));
        assert_eq!(step, Step::Done(status_and_queue()));
    }
}

fn titled(titles: &[&str]) -> Vec<QueueItem> {
    titles
        .iter()
        .enumerate()
        .map(|(i, t)| QueueItem {
            song: Song { title: Some(t.to_string()), artist: None, duration: None, tags: vec![] },
            place: Some(QueuePlace { id: i as u32, pos: i as u32, prio: 0 }),
        })
        .collect()
}

#[test]
fn refresh_keeps_query_and_searches_again() {
    let mut m = model_with_queue(0);
    refresh_queue(&mut m, titled(&["alpha", "beta", "alphabet", "gamma"]));
    assert_eq!(m.queue.len(), 4);
    assert_eq!(m.queue.selected(), None);
    handle_queue(&mut m, Message::LocalSearch(SearchMsg::Start));
    for c in "alp".chars() {
        handle_search(&mut m, KeyEvent { code: KeyCode::Char(c), control: false });
    }
    m.queue.set_selected(Some(1));
    assert_eq!(m.queue.len(), 2);
    refresh_queue(&mut m, titled(&["beta", "alphabet", "gamma"]));
    assert_eq!(m.queue.search.query, "alp");
    assert!(m.queue.search.active);
    assert_eq!(m.queue.contents.len(), 3);
    let rows: Vec<usize> =
        m.queue.search.cache.matched_indices.iter().map(|x| x.position).collect();
    assert_eq!(rows, vec![1]);
    assert_eq!(m.queue.selected(), Some(0));
    assert_eq!(m.state, State::Searching);
    refresh_queue(&mut m, vec![]);
    assert_eq!(m.queue.len(), 0);
    assert_eq!(m.queue.selected(), None);
    assert_eq!(m.queue.search.query, "alp");
}

#[test]
fn refresh_without_query_shows_every_song() {
    let mut m = model_with_queue(3);
    m.frame_size = Rect { x: 0, y: 0, width: 80, height: 2 };
    m.queue.set_selected(Some(2));
    m.queue.set_offset(1);
    refresh_queue(&mut m, titled(&["a", "b", "c", "d", "e"]));
    assert_eq!(m.queue.search.cache.matched_indices, all_rows(5));
    assert_eq!(m.queue.selected(), Some(2));
    assert_eq!(m.queue.offset(), 1);
    refresh_queue(&mut m, titled(&["a", "b"]));
    assert_eq!(m.queue.selected(), Some(1));
    assert_eq!(m.queue.offset(), 1);
}

#[test]
fn select_of_song_without_place_names_none() {
    let mut m = model_with_queue(2);
    m.queue.contents[1].place = None;
    m.queue.set_selected(Some(1));
    assert_eq!(handle_queue(&mut m, Message::Select), Step::Call(Request::Switch(None)));
    m.queue.set_selected(Some(0));
    assert_eq!(handle_queue(&mut m, Message::Select), Step::Call(Request::Switch(Some(0))));
}
