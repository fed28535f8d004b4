use inori::model::search::Scorer;
use inori::model::selectors::{ArtistData, LibraryState, QueueSelector};
use inori::model::{Model, Screen, State, Status};
use inori::view::layout::library_layout::{self, LibraryLayout, Panel};
use inori::view::layout::queue_layout;
use inori::view::layout::panel;
use inori::view::layout::Constraint::{Max, Min, Percentage, Ratio};
use inori::view::layout::queue_layout::QueueLayout;
use inori::view::layout::InoriLayout;
use inori::view::Rect;

fn model() -> Model {
    Model {
        state: State::Running,
        screen: Screen::Library,
        status: Status { elapsed: None, duration: None, song: None },
        library: LibraryState::new(
            vec![ArtistData::new("Abba".to_string(), vec![])],
            vec![],
        ),
        queue: QueueSelector::new(vec![]),
        frame_size: Rect { x: 0, y: 0, width: 90, height: 30 },
        matcher: Scorer::new(false),
    }
}

fn rect(x: u16, y: u16, width: u16, height: u16) -> Rect {
    Rect::new(x, y, width, height)
}

#[test]
fn queue_layout_without_search() {
    let m = model();
    let l = QueueLayout::new(m.frame_size, &m);
    assert_eq!(
        l,
        QueueLayout {
            header: rect(0, 0, 90, 4),
            search: None,
            queue: rect(0, 4, 90, 23),
            progress: rect(0, 27, 90, 3),
        }
    );
}

#[test]
fn queue_layout_with_search() {
    let mut m = model();
    m.queue.search.active = true;
    let l = QueueLayout::new(rect(5, 2, 40, 20), &m);
    assert_eq!(
        l,
        QueueLayout {
            header: rect(5, 2, 40, 4),
            search: Some(rect(5, 6, 40, 3)),
            queue: rect(5, 9, 40, 10),
            progress: rect(5, 19, 40, 3),
        }
    );
}

#[test]
fn queue_layout_of_empty_frame() {
    let m = model();
    let l = QueueLayout::new(rect(0, 0, 0, 0), &m);
    assert_eq!(l.search, None);
    assert_eq!(l.header.width, 0);
    assert_eq!(l.queue.height, 0);
}

#[test]
fn queue_layout_arrange_names_parts() {
    let (h, b, p, s, q) =
        (rect(0, 0, 9, 1), rect(0, 1, 9, 5), rect(0, 6, 9, 1), rect(0, 1, 9, 2), rect(0, 3, 9, 3));
    assert_eq!(
        QueueLayout::arrange(h, b, p, s, q, true),
        QueueLayout { header: h, search: Some(s), queue: q, progress: p }
    );
    assert_eq!(
        QueueLayout::arrange(h, b, p, s, q, false),
        QueueLayout { header: h, search: None, queue: b, progress: p }
    );
}

#[test]
fn library_layout_without_search() {
    let m = model();
    let l = LibraryLayout::new(m.frame_size, &m);
    assert_eq!(
        l,
        LibraryLayout {
            header: rect(0, 0, 90, 4),
            artist_select: rect(0, 4, 30, 26),
            artist_search: None,
            track_select: rect(30, 4, 60, 26),
            track_search: None,
            center_popup: None,
        }
    );
}

#[test]
fn library_layout_with_every_search_open() {
    let mut m = model();
    m.library.artist_search.active = true;
    m.library.global_search.search.active = true;
    m.library.selected = Some(0);
    m.library.contents[0].search.active = true;
    let l = LibraryLayout::new(m.frame_size, &m);
    assert_eq!(
        l,
        LibraryLayout {
            header: rect(0, 0, 90, 4),
            artist_select: rect(0, 7, 30, 23),
            artist_search: Some(rect(0, 4, 30, 3)),
            track_select: rect(30, 7, 60, 23),
            track_search: Some(rect(30, 4, 60, 3)),
            center_popup: Some(rect(18, 6, 54, 18)),
        }
    );
}

#[test]
fn library_layout_track_search_needs_selected_artist() {
    let mut m = model();
    m.library.contents[0].search.active = true;
    let l = LibraryLayout::new(m.frame_size, &m);
    assert_eq!(l.track_search, None);
    assert_eq!(l.track_select, rect(30, 4, 60, 26));
}

#[test]
fn library_layout_arrange_names_parts() {
    let left = Panel { whole: rect(0, 1, 3, 9), search_box: rect(0, 1, 3, 3), list: rect(0, 4, 3, 6) };
    let right =
        Panel { whole: rect(3, 1, 6, 9), search_box: rect(3, 1, 6, 3), list: rect(3, 4, 6, 6) };
    let header = rect(0, 0, 9, 1);
    let popup = rect(2, 2, 5, 5);
    assert_eq!(
        LibraryLayout::arrange(header, left, right, popup, true, false, true),
        LibraryLayout {
            header,
            artist_select: left.list,
            artist_search: Some(left.search_box),
            track_select: right.whole,
            track_search: None,
            center_popup: Some(popup),
        }
    );
    assert_eq!(
        LibraryLayout::arrange(header, left, right, popup, false, true, false),
        LibraryLayout {
            header,
            artist_select: left.whole,
            artist_search: None,
            track_select: right.list,
            track_search: Some(right.search_box),
            center_popup: None,
        }
    );
}

#[test]
fn constraints_of_both_screens() {
    assert_eq!(queue_layout::bands(), vec![Max(4), Min(1), Max(3)]);
    assert_eq!(panel(), vec![Max(3), Min(1)]);
    assert_eq!(library_layout::bands(), vec![Max(4), Min(1)]);
    assert_eq!(library_layout::header(), vec![Ratio(1, 1)]);
    assert_eq!(library_layout::columns(), vec![Ratio(1, 3), Ratio(2, 3)]);
    assert_eq!(
        library_layout::popup(),
        vec![Percentage(20), Percentage(60), Percentage(20)]
    );
}

fn inside(frame: Rect, part: Rect) -> bool {
    frame.x <= part.x
        && part.x as u32 + part.width as u32 <= frame.x as u32 + frame.width as u32
        && frame.y <= part.y
        && part.y as u32 + part.height as u32 <= frame.y as u32 + frame.height as u32
}

#[test]
fn regions_lie_inside_the_frame() {
    let mut m = model();
    m.library.artist_search.active = true;
    m.library.global_search.search.active = true;
    m.library.selected = Some(0);
    m.library.contents[0].search.active = true;
    m.queue.search.active = true;
    let frames = [
        rect(0, 0, 0, 0),
        rect(0, 0, 1, 1),
        rect(3, 2, 5, 2),
        rect(7, 9, 120, 40),
        rect(65_000, 65_000, 535, 535),
        rect(65_535, 65_535, 65_535, 65_535),
    ];
    for frame in frames {
        let q = QueueLayout::new(frame, &m);
        for part in [Some(q.header), q.search, Some(q.queue), Some(q.progress)] {
            assert!(inside(frame, part.unwrap()));
        }
        let l = LibraryLayout::new(frame, &m);
        for part in [
            Some(l.header),
            Some(l.artist_select),
            l.artist_search,
            Some(l.track_select),
            l.track_search,
            l.center_popup,
        ] {
            assert!(inside(frame, part.unwrap()));
        }
    }
}
