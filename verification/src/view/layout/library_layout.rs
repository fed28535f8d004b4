//! The regions of the library screen.

use crate::model::proto::Searchable;
use crate::model::selectors::LibraryState;
use crate::model::{Model, ModelView};
use crate::view::layout::{
    inside, is_split, lemma_inside_inside, lemma_split_shape, panel, panel_constraints, split,
    Constraint, Direction, InoriLayout,
};
use crate::view::Rect;
use vstd::prelude::*;

verus! {

/// The library screen: a header, the artists on the left and the tracks of
/// the selected artist on the right, each with its search box above it while
/// its search is open, and a window over the middle of the screen while the
/// whole library is searched.
#[derive(Clone, Copy, PartialEq, Eq, Debug)]
pub struct LibraryLayout {
    pub artist_select: Rect,
    pub artist_search: Option<Rect>,
    pub track_select: Rect,
    pub track_search: Option<Rect>,
    pub header: Rect,
    pub center_popup: Option<Rect>,
}

/// The searches that are open on the library screen.
pub struct OpenSearches {
    pub artists: bool,
    pub tracks: bool,
    pub global: bool,
}

/// The parts that the frame of the library screen is divided into.
pub struct LibraryParts {
    /// The header and the body.
    pub bands: Seq<Rect>,
    /// The header's one part.
    pub header: Seq<Rect>,
    /// The left and the right panel of the body.
    pub panels: Seq<Rect>,
    /// The search box and the list of the left panel.
    pub left: Seq<Rect>,
    /// The search box and the list of the right panel.
    pub right: Seq<Rect>,
    /// The three columns of the frame, the window in the middle one.
    pub popup_columns: Seq<Rect>,
    /// The three rows of the middle column, the window in the middle one.
    pub popup_rows: Seq<Rect>,
}

/// The two bands of the library screen: a header of at most four rows, and
/// the body.
pub open spec fn band_constraints() -> Seq<Constraint> {
    seq![Constraint::Max(4), Constraint::Min(1)]
}

/// The header's one part: all of its band.
pub open spec fn header_constraints() -> Seq<Constraint> {
    seq![Constraint::Ratio(1, 1)]
}

/// The two panels of the body: a third for the artists, two thirds for the
/// tracks.
pub open spec fn column_constraints() -> Seq<Constraint> {
    seq![Constraint::Ratio(1, 3), Constraint::Ratio(2, 3)]
}

/// The window over the middle of the screen: the middle sixty of a hundred
/// parts, with twenty on either side, across and down.
pub open spec fn popup_constraints() -> Seq<Constraint> {
    seq![Constraint::Percentage(20), Constraint::Percentage(60), Constraint::Percentage(20)]
}

/// The constraints that divide the frame of the library screen into its bands.
pub fn bands() -> (constraints: Vec<Constraint>)
    ensures
        constraints@ == band_constraints(),
{
    let constraints = vec![Constraint::Max(4), Constraint::Min(1)];
    assert(constraints@ =~= band_constraints());
    constraints
}

/// The constraint that gives the header all of its band.
pub fn header() -> (constraints: Vec<Constraint>)
    ensures
        constraints@ == header_constraints(),
{
    let constraints = vec![Constraint::Ratio(1, 1)];
    assert(constraints@ =~= header_constraints());
    constraints
}

/// The constraints that divide the body into its two panels.
pub fn columns() -> (constraints: Vec<Constraint>)
    ensures
        constraints@ == column_constraints(),
{
    let constraints = vec![Constraint::Ratio(1, 3), Constraint::Ratio(2, 3)];
    assert(constraints@ =~= column_constraints());
    constraints
}

/// The constraints that cut the window out of the frame, across and down.
pub fn popup() -> (constraints: Vec<Constraint>)
    ensures
        constraints@ == popup_constraints(),
{
    let constraints = vec![
        Constraint::Percentage(20),
        Constraint::Percentage(60),
        Constraint::Percentage(20),
    ];
    assert(constraints@ =~= popup_constraints());
    constraints
}

/// Whether `parts` can be what dividing the frame gives: the frame into
/// bands, the header band into its one part, the body into panels and each
/// panel into search box and list; and, for the window, the frame into
/// columns and the middle column into rows.
pub open spec fn library_split(frame_rect: Rect, parts: LibraryParts) -> bool {
    &&& is_split(Direction::Vertical, band_constraints(), frame_rect, parts.bands)
    &&& is_split(Direction::Horizontal, header_constraints(), parts.bands[0], parts.header)
    &&& is_split(Direction::Horizontal, column_constraints(), parts.bands[1], parts.panels)
    &&& is_split(Direction::Vertical, panel_constraints(), parts.panels[0], parts.left)
    &&& is_split(Direction::Vertical, panel_constraints(), parts.panels[1], parts.right)
    &&& is_split(Direction::Horizontal, popup_constraints(), frame_rect, parts.popup_columns)
    &&& is_split(Direction::Vertical, popup_constraints(), parts.popup_columns[1], parts.popup_rows)
}

/// The searches that the model has open: that of the artists, that of the
/// tracks of the selected artist, and that of the whole library.
pub open spec fn open_searches(m: ModelView) -> OpenSearches {
    OpenSearches {
        artists: m.library.artist_search.active,
        tracks: match LibraryState::selected_item_of(m.library) {
            Some(artist) => artist.search.active,
            None => false,
        },
        global: m.library.global_search.search.active,
    }
}

/// The regions made of the parts of the frame: a panel whose search is open
/// gives its first part to the search box and its second to the list, a
/// panel whose search is closed is all list; the window is there while the
/// whole library is searched.
pub open spec fn library_regions(parts: LibraryParts, open: OpenSearches) -> LibraryLayout {
    LibraryLayout {
        header: parts.header[0],
        artist_select: if open.artists {
            parts.left[1]
        } else {
            parts.panels[0]
        },
        artist_search: if open.artists {
            Some(parts.left[0])
        } else {
            None
        },
        track_select: if open.tracks {
            parts.right[1]
        } else {
            parts.panels[1]
        },
        track_search: if open.tracks {
            Some(parts.right[0])
        } else {
            None
        },
        center_popup: if open.global {
            Some(parts.popup_rows[1])
        } else {
            None
        },
    }
}

/// One panel of the library screen: its whole area, and the search box and
/// the list that it is divided into while its search is open.
#[derive(Clone, Copy, PartialEq, Eq, Debug)]
pub struct Panel {
    pub whole: Rect,
    pub search_box: Rect,
    pub list: Rect,
}

impl LibraryLayout {
    /// Names the parts of a divided frame.
    pub fn arrange(
        header: Rect,
        left: Panel,
        right: Panel,
        popup: Rect,
        artists_open: bool,
        tracks_open: bool,
        global_open: bool,
    ) -> (regions: LibraryLayout)
        ensures
            regions == (LibraryLayout {
                header,
                artist_select: if artists_open {
                    left.list
                } else {
                    left.whole
                },
                artist_search: if artists_open {
                    Some(left.search_box)
                } else {
                    None
                },
                track_select: if tracks_open {
                    right.list
                } else {
                    right.whole
                },
                track_search: if tracks_open {
                    Some(right.search_box)
                } else {
                    None
                },
                center_popup: if global_open {
                    Some(popup)
                } else {
                    None
                },
            }),
    {
        LibraryLayout {
            header,
            artist_select: if artists_open {
                left.list
            } else {
                left.whole
            },
            artist_search: if artists_open {
                Some(left.search_box)
            } else {
                None
            },
            track_select: if tracks_open {
                right.list
            } else {
                right.whole
            },
            track_search: if tracks_open {
                Some(right.search_box)
            } else {
                None
            },
            center_popup: if global_open {
                Some(popup)
            } else {
                None
            },
        }
    }
}

impl InoriLayout for LibraryLayout {
    /// The frame is divided as `library_split` says, and the regions are
    /// named from the parts as `library_regions` says.
    open spec fn fits(&self, frame_rect: Rect, model: ModelView) -> bool {
        exists|parts: LibraryParts|
            library_split(frame_rect, parts) && *self == #[trigger] library_regions(
                parts,
                open_searches(model),
            )
    }

    fn new(frame_rect: Rect, model: &Model) -> (regions: Self) {
        let bands = split(Direction::Vertical, &bands(), frame_rect);
        let panels = split(Direction::Horizontal, &columns(), bands[1]);
        let header = split(Direction::Horizontal, &header(), bands[0]);
        let left = split(Direction::Vertical, &panel(), panels[0]);
        let right = split(Direction::Vertical, &panel(), panels[1]);
        let popup_columns = split(Direction::Horizontal, &popup(), frame_rect);
        let popup_rows = split(Direction::Vertical, &popup(), popup_columns[1]);
        let tracks_open = match model.library.selected_item() {
            Some(artist) => artist.search.active,
            None => false,
        };
        let regions = LibraryLayout::arrange(
            header[0],
            Panel { whole: panels[0], search_box: left[0], list: left[1] },
            Panel { whole: panels[1], search_box: right[0], list: right[1] },
            popup_rows[1],
            model.library.artist_search.active,
            tracks_open,
            model.library.global_search.search.active,
        );
        proof {
            let parts = LibraryParts {
                bands: bands@,
                header: header@,
                panels: panels@,
                left: left@,
                right: right@,
                popup_columns: popup_columns@,
                popup_rows: popup_rows@,
            };
            assert(library_split(frame_rect, parts));
            assert(regions == library_regions(parts, open_searches(model@)));
        }
        regions
    }
}

/// Every region of the library screen lies inside the frame, and a search
/// box or the window is there just while its search is open.
pub proof fn lemma_library_regions_inside(regions: LibraryLayout, frame_rect: Rect, model: ModelView)
    requires
        regions.fits(frame_rect, model),
    ensures
        inside(frame_rect, regions.header),
        inside(frame_rect, regions.artist_select),
        inside(frame_rect, regions.track_select),
        regions.artist_search matches Some(r) ==> inside(frame_rect, r),
        regions.track_search matches Some(r) ==> inside(frame_rect, r),
        regions.center_popup matches Some(r) ==> inside(frame_rect, r),
        regions.artist_search is Some <==> open_searches(model).artists,
        regions.track_search is Some <==> open_searches(model).tracks,
        regions.center_popup is Some <==> open_searches(model).global,
{
    let parts = choose|parts: LibraryParts|
        library_split(frame_rect, parts) && regions == #[trigger] library_regions(
            parts,
            open_searches(model),
        );
    lemma_split_shape(Direction::Vertical, band_constraints(), frame_rect, parts.bands);
    lemma_split_shape(Direction::Horizontal, header_constraints(), parts.bands[0], parts.header);
    lemma_split_shape(Direction::Horizontal, column_constraints(), parts.bands[1], parts.panels);
    lemma_split_shape(Direction::Vertical, panel_constraints(), parts.panels[0], parts.left);
    lemma_split_shape(Direction::Vertical, panel_constraints(), parts.panels[1], parts.right);
    lemma_split_shape(Direction::Horizontal, popup_constraints(), frame_rect, parts.popup_columns);
    lemma_split_shape(
        Direction::Vertical,
        popup_constraints(),
        parts.popup_columns[1],
        parts.popup_rows,
    );
    assert(inside(frame_rect, parts.bands[0]) && inside(frame_rect, parts.bands[1]));
    lemma_inside_inside(frame_rect, parts.bands[0], parts.header[0]);
    assert(inside(parts.bands[1], parts.panels[0]) && inside(parts.bands[1], parts.panels[1]));
    lemma_inside_inside(frame_rect, parts.bands[1], parts.panels[0]);
    lemma_inside_inside(frame_rect, parts.bands[1], parts.panels[1]);
    lemma_inside_inside(frame_rect, parts.panels[0], parts.left[0]);
    lemma_inside_inside(frame_rect, parts.panels[0], parts.left[1]);
    lemma_inside_inside(frame_rect, parts.panels[1], parts.right[0]);
    lemma_inside_inside(frame_rect, parts.panels[1], parts.right[1]);
    assert(inside(frame_rect, parts.popup_columns[1]));
    lemma_inside_inside(frame_rect, parts.popup_columns[1], parts.popup_rows[1]);
}

} // verus!
