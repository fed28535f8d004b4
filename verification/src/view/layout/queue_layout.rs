//! The regions of the queue screen.

use crate::model::{Model, ModelView};
use crate::view::layout::{
    inside, is_split, lemma_inside_inside, lemma_split_shape, panel, panel_constraints, split,
    Constraint, Direction, InoriLayout,
};
use crate::view::Rect;
use vstd::prelude::*;

verus! {

/// The queue screen: a header, the queue with its search box above it while
/// the search is open, and the progress bar.
#[derive(Clone, Copy, PartialEq, Eq, Debug)]
pub struct QueueLayout {
    pub header: Rect,
    pub search: Option<Rect>,
    pub queue: Rect,
    pub progress: Rect,
}

/// The regions made of the three bands of the frame and the two parts of the
/// middle band.
pub open spec fn queue_regions(bands: Seq<Rect>, content: Seq<Rect>, searching: bool) -> QueueLayout {
    if searching {
        QueueLayout {
            header: bands[0],
            search: Some(content[0]),
            queue: content[1],
            progress: bands[2],
        }
    } else {
        QueueLayout { header: bands[0], search: None, queue: bands[1], progress: bands[2] }
    }
}

/// The three bands of the queue screen: a header of at most four rows, the
/// body, and a progress bar of at most three rows.
pub open spec fn band_constraints() -> Seq<Constraint> {
    seq![Constraint::Max(4), Constraint::Min(1), Constraint::Max(3)]
}

/// The constraints that divide the frame of the queue screen into its bands.
pub fn bands() -> (constraints: Vec<Constraint>)
    ensures
        constraints@ == band_constraints(),
{
    let constraints = vec![Constraint::Max(4), Constraint::Min(1), Constraint::Max(3)];
    assert(constraints@ =~= band_constraints());
    constraints
}

impl QueueLayout {
    /// Names the parts of a divided frame. The frame was divided into header,
    /// body and progress bar, and the body into a search box and a list: while
    /// the search is open the queue has the list, else the whole body.
    pub fn arrange(header: Rect, body: Rect, progress: Rect, search_box: Rect, list: Rect, searching: bool) -> (regions: QueueLayout)
        ensures
            regions == queue_regions(seq![header, body, progress], seq![search_box, list], searching),
    {
        if searching {
            QueueLayout { header, search: Some(search_box), queue: list, progress }
        } else {
            QueueLayout { header, search: None, queue: body, progress }
        }
    }
}

impl InoriLayout for QueueLayout {
    /// The frame is divided into rows under `band_constraints`, and the
    /// middle row into rows under `panel_constraints`; the regions are named
    /// from these as `queue_regions` says.
    open spec fn fits(&self, frame_rect: Rect, model: ModelView) -> bool {
        exists|bands: Seq<Rect>, content: Seq<Rect>|
            {
                &&& is_split(Direction::Vertical, band_constraints(), frame_rect, bands)
                &&& is_split(Direction::Vertical, panel_constraints(), bands[1], content)
                &&& *self == #[trigger] queue_regions(bands, content, model.queue.search.active)
            }
    }

    fn new(frame_rect: Rect, model: &Model) -> (regions: Self) {
        let bands = split(Direction::Vertical, &bands(), frame_rect);
        let content = split(Direction::Vertical, &panel(), bands[1]);
        let regions = QueueLayout::arrange(
            bands[0],
            bands[1],
            bands[2],
            content[0],
            content[1],
            model.queue.search.active,
        );
        proof {
            assert(seq![bands[0], bands[1], bands[2]] =~= bands@);
            assert(seq![content[0], content[1]] =~= content@);
            assert(regions == queue_regions(bands@, content@, model@.queue.search.active));
        }
        regions
    }
}

/// Every region of the queue screen lies inside the frame.
pub proof fn lemma_queue_regions_inside(regions: QueueLayout, frame_rect: Rect, model: ModelView)
    requires
        regions.fits(frame_rect, model),
    ensures
        inside(frame_rect, regions.header),
        inside(frame_rect, regions.queue),
        inside(frame_rect, regions.progress),
        regions.search matches Some(search) ==> inside(frame_rect, search),
        regions.search is Some <==> model.queue.search.active,
{
    let (bands, content) = choose|bands: Seq<Rect>, content: Seq<Rect>|
        {
            &&& is_split(Direction::Vertical, band_constraints(), frame_rect, bands)
            &&& is_split(Direction::Vertical, panel_constraints(), bands[1], content)
            &&& regions == #[trigger] queue_regions(bands, content, model.queue.search.active)
        };
    lemma_split_shape(Direction::Vertical, band_constraints(), frame_rect, bands);
    lemma_split_shape(Direction::Vertical, panel_constraints(), bands[1], content);
    assert(inside(frame_rect, bands[0]) && inside(frame_rect, bands[1]) && inside(
        frame_rect,
        bands[2],
    ));
    lemma_inside_inside(frame_rect, bands[1], content[0]);
    lemma_inside_inside(frame_rect, bands[1], content[1]);
}

} // verus!
