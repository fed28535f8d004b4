//! The rows of the queue table.

use crate::model::proto::{items_view, Searchable};
use crate::model::selectors::QueueSelector;
use crate::model::{Model, ModelView, QueueItem, QueueItemView, Status};
use crate::util::{album_of, format_seconds, format_time, song_album, time_text, whole_seconds};
use vstd::prelude::*;
use vstd::string::StringExecFns;

verus! {

/// One row of the queue table: title, artist, album and length of a song,
/// and whether it is the song that is playing.
#[derive(Clone, PartialEq, Eq, Debug)]
pub struct QueueRow {
    pub title: String,
    pub artist: String,
    pub album: String,
    pub time: String,
    pub playing: bool,
}

pub struct QueueRowView {
    pub title: Seq<char>,
    pub artist: Seq<char>,
    pub album: Seq<char>,
    pub time: Seq<char>,
    pub playing: bool,
}

impl View for QueueRow {
    type V = QueueRowView;

    open spec fn view(&self) -> QueueRowView {
        QueueRowView {
            title: self.title@,
            artist: self.artist@,
            album: self.album@,
            time: self.time@,
            playing: self.playing,
        }
    }
}

/// What stands for an artist that is not known.
pub open spec fn unknown_artist() -> Seq<char> {
    "Unknown Artist"@
}

/// What stands for an album that is not known.
pub open spec fn unknown_album() -> Seq<char> {
    "Unknown Album"@
}

/// The row that shows a song of the queue: a title that is not known is
/// left empty, and a length that is not known is shown as no time at all.
pub open spec fn row_of(item: QueueItemView, status: Status) -> QueueRowView {
    QueueRowView {
        title: match item.song.title {
            Some(t) => t,
            None => Seq::empty(),
        },
        artist: match item.song.artist {
            Some(a) => a,
            None => unknown_artist(),
        },
        album: match album_of(item.song.tags) {
            Some(a) => a,
            None => unknown_album(),
        },
        time: match item.song.duration {
            Some(d) => time_text(whole_seconds(d) as nat),
            None => time_text(0),
        },
        playing: item.place is Some && status.song == item.place,
    }
}

/// Whether a row of the queue is the song that is playing: it has a place,
/// and that is the place that the playback service names.
pub fn is_playing(item: &QueueItem, status: &Status) -> (playing: bool)
    ensures
        playing == (item.place is Some && status.song == item.place),
{
    match (item.place, status.song) {
        (Some(own), Some(named)) => own.id == named.id && own.pos == named.pos && own.prio
            == named.prio,
        _ => false,
    }
}

/// Makes the row that shows a song of the queue.
pub fn make_row(item: &QueueItem, status: &Status) -> (row: QueueRow)
    ensures
        row@ == row_of(item@, *status),
{
    let title = match &item.song.title {
        Some(t) => t.clone(),
        None => String::new(),
    };
    let artist = match &item.song.artist {
        Some(a) => a.clone(),
        None => String::from_str("Unknown Artist"),
    };
    let album = match song_album(&item.song) {
        Some(a) => a.clone(),
        None => String::from_str("Unknown Album"),
    };
    let time = match item.song.duration {
        Some(d) => format_time(d),
        None => format_seconds(0),
    };
    QueueRow { title, artist, album, time, playing: is_playing(item, status) }
}

/// The rows of the queue table: one for each song that the queue shows.
pub open spec fn queue_rows(m: ModelView) -> Seq<QueueRowView> {
    QueueSelector::contents_of(m.queue).map_values(|i: QueueItemView| row_of(i, m.status))
}

/// Makes the rows of the queue table.
pub fn make_queue(model: &Model) -> (rows: Vec<QueueRow>)
    ensures
        rows@.map_values(|r: QueueRow| r@) == queue_rows(model@),
{
    let items = model.queue.contents();
    let mut rows: Vec<QueueRow> = Vec::new();
    let mut i: usize = 0;
    while i < items.len()
        invariant
            i <= items.len(),
            rows.len() == i,
            items_view(items@) == QueueSelector::contents_of(model@.queue),
            forall|j: int| 0 <= j < i ==> (#[trigger] rows[j])@ == row_of(items[j]@, model.status),
        decreases items.len() - i,
    {
        rows.push(make_row(items[i], &model.status));
        i += 1;
    }
    assert(rows@.map_values(|r: QueueRow| r@) =~= queue_rows(model@)) by {
        assert forall|j: int| 0 <= j < items.len() implies items_view(items@)[j] == items[j]@ by {}
    }
    rows
}

} // verus!
