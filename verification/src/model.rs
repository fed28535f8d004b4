//! The application model: what is on screen, what is selected, what is being
//! searched for, and the messages that change it.

use core::time::Duration;
use vstd::prelude::*;

pub mod proto;
pub mod search;
pub mod selectors;

use crate::model::search::Scorer;
use crate::model::selectors::{LibraryState, LibraryView, ListView, QueueSelector};
use crate::view::Rect;

verus! {

/// The two screens of the client.
#[derive(Clone, Copy, PartialEq, Eq, Debug)]
pub enum Screen {
    Library,
    Queue,
}

/// Whether keys are commands (`Running`) or text for a search box (`Searching`).
#[derive(Clone, Copy, PartialEq, Eq, Debug)]
pub enum State {
    Running,
    Searching,
}

#[derive(Clone, Copy, PartialEq, Eq, Debug)]
pub enum Vertical {
    Up,
    Down,
    Top,
    Bottom,
}

#[derive(Clone, Copy, PartialEq, Eq, Debug)]
pub enum Horizontal {
    Left,
    Right,
}

#[derive(Clone, Copy, PartialEq, Eq, Debug)]
pub enum Dirs {
    Vert(Vertical),
    Horiz(Horizontal),
}

#[derive(Clone, Copy, PartialEq, Eq, Debug)]
pub enum SearchMsg {
    Start,
    End,
}

/// What a key press asks of the model.
#[derive(Clone, Copy, PartialEq, Eq, Debug)]
pub enum Message {
    Direction(Dirs),
    ScrollScreenful(Vertical),
    Select,
    Delete,
    ToggleScreen,
    LocalSearch(SearchMsg),
    GlobalSearch(SearchMsg),
    Escape,
}

/// The key of a key press, as far as the search boxes tell keys apart.
#[derive(Clone, Copy, PartialEq, Eq, Debug)]
pub enum KeyCode {
    Char(char),
    Backspace,
    Esc,
    Enter,
    Tab,
    Other,
}

/// A key press: the key, and whether Control was held.
#[derive(Clone, Copy, PartialEq, Eq, Debug)]
pub struct KeyEvent {
    pub code: KeyCode,
    pub control: bool,
}

/// The areas of the screen that a handler asks to have drawn again.
#[derive(Clone, Copy, PartialEq, Eq, Debug)]
pub struct Update {
    pub status: bool,
    pub queue: bool,
    pub current_song: bool,
}

impl Update {
    pub open spec fn spec_empty() -> Update {
        Update { status: false, queue: false, current_song: false }
    }

    pub open spec fn spec_status() -> Update {
        Update { status: true, queue: false, current_song: false }
    }

    pub open spec fn spec_queue() -> Update {
        Update { status: false, queue: true, current_song: false }
    }

    pub open spec fn spec_current_song() -> Update {
        Update { status: false, queue: false, current_song: true }
    }

    /// No area.
    #[verifier::when_used_as_spec(spec_empty)]
    pub fn empty() -> (u: Update)
        ensures
            u == Update::spec_empty(),
    {
        Update { status: false, queue: false, current_song: false }
    }

    /// The playback status line.
    #[verifier::when_used_as_spec(spec_status)]
    pub fn status() -> (u: Update)
        ensures
            u == Update::spec_status(),
    {
        Update { status: true, queue: false, current_song: false }
    }

    /// The queue table.
    #[verifier::when_used_as_spec(spec_queue)]
    pub fn queue() -> (u: Update)
        ensures
            u == Update::spec_queue(),
    {
        Update { status: false, queue: true, current_song: false }
    }

    /// The song that is playing.
    #[verifier::when_used_as_spec(spec_current_song)]
    pub fn current_song() -> (u: Update)
        ensures
            u == Update::spec_current_song(),
    {
        Update { status: false, queue: false, current_song: true }
    }

    /// The areas of `self` together with those of `other`.
    pub open spec fn spec_union(self, other: Update) -> Update {
        Update {
            status: self.status || other.status,
            queue: self.queue || other.queue,
            current_song: self.current_song || other.current_song,
        }
    }

    #[verifier::when_used_as_spec(spec_union)]
    pub fn union(self, other: Update) -> (u: Update)
        ensures
            u == self.spec_union(other),
    {
        Update {
            status: self.status || other.status,
            queue: self.queue || other.queue,
            current_song: self.current_song || other.current_song,
        }
    }
}

/// The text of an optional string.
pub open spec fn text_of(o: Option<String>) -> Option<Seq<char>> {
    match o {
        Some(s) => Some(s@),
        None => None,
    }
}

/// Where a song stands in the playback queue, as the playback service numbers it.
#[derive(Clone, Copy, PartialEq, Eq, Debug)]
pub struct QueuePlace {
    pub id: u32,
    pub pos: u32,
    pub prio: u8,
}

/// A song as the playback service describes it.
#[derive(Clone, PartialEq, Eq, Debug)]
pub struct Song {
    pub title: Option<String>,
    pub artist: Option<String>,
    pub duration: Option<Duration>,
    pub tags: Vec<(String, String)>,
}

pub struct SongView {
    pub title: Option<Seq<char>>,
    pub artist: Option<Seq<char>>,
    pub duration: Option<Duration>,
    pub tags: Seq<(Seq<char>, Seq<char>)>,
}

impl View for Song {
    type V = SongView;

    open spec fn view(&self) -> SongView {
        SongView {
            title: text_of(self.title),
            artist: text_of(self.artist),
            duration: self.duration,
            tags: self.tags@.map_values(|t: (String, String)| (t.0@, t.1@)),
        }
    }
}

/// A row of the playback queue: a song and its place, as far as the
/// playback service named one.
#[derive(Clone, PartialEq, Eq, Debug)]
pub struct QueueItem {
    pub song: Song,
    pub place: Option<QueuePlace>,
}

pub struct QueueItemView {
    pub song: SongView,
    pub place: Option<QueuePlace>,
}

impl View for QueueItem {
    type V = QueueItemView;

    open spec fn view(&self) -> QueueItemView {
        QueueItemView { song: self.song@, place: self.place }
    }
}

/// What the playback service last said of itself.
#[derive(Clone, PartialEq, Eq, Debug)]
pub struct Status {
    pub elapsed: Option<Duration>,
    pub duration: Option<Duration>,
    pub song: Option<QueuePlace>,
}

/// One row of the library: an artist, and below it an album and a title.
/// `rank` is the row's place among the matches of the search that is
/// running over its list, if it is one of them.
#[derive(Clone, PartialEq, Eq, Debug)]
pub struct InfoEntry {
    pub artist: String,
    pub artist_sort: Option<String>,
    pub album: Option<String>,
    pub title: Option<String>,
    pub rank: Option<usize>,
}

pub struct InfoView {
    pub artist: Seq<char>,
    pub artist_sort: Option<Seq<char>>,
    pub album: Option<Seq<char>>,
    pub title: Option<Seq<char>>,
    pub rank: Option<usize>,
}

impl View for InfoEntry {
    type V = InfoView;

    open spec fn view(&self) -> InfoView {
        InfoView {
            artist: self.artist@,
            artist_sort: text_of(self.artist_sort),
            album: text_of(self.album),
            title: text_of(self.title),
            rank: self.rank,
        }
    }
}

/// The whole state of the client.
pub struct Model {
    pub state: State,
    pub screen: Screen,
    pub status: Status,
    pub library: LibraryState,
    pub queue: QueueSelector,
    pub frame_size: Rect,
    pub matcher: Scorer,
}

impl Model {
    /// The model at the start: the library and the queue as they were read,
    /// the library screen, keys taken as commands, and a fresh matcher.
    pub fn new(
        library: LibraryState,
        queue: QueueSelector,
        status: Status,
        frame_size: Rect,
        prefer_prefix: bool,
    ) -> (m: Model)
        ensures
            m.state == State::Running,
            m.screen == Screen::Library,
            m.status == status,
            m.library == library,
            m.queue == queue,
            m.frame_size == frame_size,
            m.matcher.prefer_prefix == prefer_prefix,
    {
        Model {
            state: State::Running,
            screen: Screen::Library,
            status,
            library,
            queue,
            frame_size,
            matcher: Scorer::new(prefer_prefix),
        }
    }
}

/// The model without the matcher's scratch memory.
pub struct ModelView {
    pub state: State,
    pub screen: Screen,
    pub status: Status,
    pub library: LibraryView,
    pub queue: ListView<QueueItemView>,
    pub frame_size: Rect,
    pub prefer_prefix: bool,
}

impl View for Model {
    type V = ModelView;

    open spec fn view(&self) -> ModelView {
        ModelView {
            state: self.state,
            screen: self.screen,
            status: self.status,
            library: self.library@,
            queue: self.queue@,
            frame_size: self.frame_size,
            prefer_prefix: self.matcher.prefer_prefix,
        }
    }
}

} // verus!
