//! Dividing the frame into the regions of a screen.

use crate::model::{Model, ModelView};
use crate::view::Rect;
use ratatui::layout;
use vstd::prelude::*;

pub mod library_layout;
pub mod queue_layout;

verus! {

/// The way in which an area is divided: into columns or into rows.
#[derive(Clone, Copy, PartialEq, Eq, Debug)]
pub enum Direction {
    Horizontal,
    Vertical,
}

/// What is asked of the size of one part of a divided area.
#[derive(Clone, Copy, PartialEq, Eq, Debug)]
pub enum Constraint {
    /// At most so many cells.
    Max(u16),
    /// At least so many cells.
    Min(u16),
    /// This fraction of the area.
    Ratio(u32, u32),
    /// So many hundredths of the area.
    Percentage(u16),
}

/// Whether `part` runs across the whole of `area`: a row has the area's
/// columns and a column has its rows.
pub open spec fn spans(direction: Direction, area: Rect, part: Rect) -> bool {
    match direction {
        Direction::Horizontal => part.y == area.y && part.height == area.height,
        Direction::Vertical => part.x == area.x && part.width == area.width,
    }
}

/// Whether `part` lies inside `area`.
pub open spec fn inside(area: Rect, part: Rect) -> bool {
    &&& area.x <= part.x
    &&& part.x + part.width <= area.x + area.width
    &&& area.y <= part.y
    &&& part.y + part.height <= area.y + area.height
}

/// What holds of every division of `area` into `n` parts: there are `n` of
/// them, and each runs across the whole of the area and lies inside it.
pub open spec fn split_shape(direction: Direction, n: nat, area: Rect, parts: Seq<Rect>) -> bool {
    &&& parts.len() == n
    &&& forall|i: int|
        0 <= i < parts.len() ==> spans(direction, area, #[trigger] parts[i]) && inside(
            area,
            parts[i],
        )
}

/// Whether `parts` can be what dividing `area` under `constraints` gives.
/// All that is said of such parts is their shape, one part for each
/// constraint: where the parts begin and how long they are is the solver's
/// choice, and the solver may choose otherwise the next time.
#[verifier::opaque]
pub closed spec fn is_split(
    direction: Direction,
    constraints: Seq<Constraint>,
    area: Rect,
    parts: Seq<Rect>,
) -> bool {
    split_shape(direction, constraints.len(), area, parts)
}

/// The parts of a division have the shape of one.
pub proof fn lemma_split_shape(
    direction: Direction,
    constraints: Seq<Constraint>,
    area: Rect,
    parts: Seq<Rect>,
)
    requires
        is_split(direction, constraints, area, parts),
    ensures
        split_shape(direction, constraints.len(), area, parts),
{
    reveal(is_split);
}

/// What lies inside a rectangle lies inside every rectangle around it.
pub proof fn lemma_inside_inside(outer: Rect, middle: Rect, inner: Rect)
    requires
        inside(outer, middle),
        inside(middle, inner),
    ensures
        inside(outer, inner),
{
}

/// The two parts of a panel: a search box of at most three rows, and a list.
pub open spec fn panel_constraints() -> Seq<Constraint> {
    seq![Constraint::Max(3), Constraint::Min(1)]
}

/// The constraints that divide a panel into its search box and its list.
pub fn panel() -> (constraints: Vec<Constraint>)
    ensures
        constraints@ == panel_constraints(),
{
    let constraints = vec![Constraint::Max(3), Constraint::Min(1)];
    assert(constraints@ =~= panel_constraints());
    constraints
}

/// `ratatui::layout::Layout::split`, on a layout made by `Layout::new` with
/// no margin. The source shows the shape of what comes back: one part for
/// each constraint; every part has the area's extent across the direction;
/// and along the direction the solver is required to keep every part
/// between the area's two ends. Where the parts begin and how long they are
/// is the solver's choice.
#[verifier::external_body]
pub(crate) fn split(direction: Direction, constraints: &Vec<Constraint>, area: Rect) -> (parts: Vec<
    Rect,
>)
    ensures
        parts.len() == constraints.len(),
        is_split(direction, constraints@, area, parts@),
{
    let direction = match direction {
        Direction::Horizontal => layout::Direction::Horizontal,
        Direction::Vertical => layout::Direction::Vertical,
    };
    let constraints = constraints.iter().map(|c| match *c {
        Constraint::Max(n) => layout::Constraint::Max(n),
        Constraint::Min(n) => layout::Constraint::Min(n),
        Constraint::Ratio(n, d) => layout::Constraint::Ratio(n, d),
        Constraint::Percentage(p) => layout::Constraint::Percentage(p),
    });
    layout::Layout::new(direction, constraints)
        .split(layout::Rect { x: area.x, y: area.y, width: area.width, height: area.height })
        .iter()
        .map(|r| Rect::new(r.x, r.y, r.width, r.height))
        .collect()
}

/// The regions of a screen.
pub trait InoriLayout: Sized {
    /// Whether these regions can be what `new` gives for the frame and the model.
    spec fn fits(&self, frame_rect: Rect, model: ModelView) -> bool;

    /// Divides the frame into the regions that the model asks for.
    fn new(frame_rect: Rect, model: &Model) -> (regions: Self)
        ensures
            regions.fits(frame_rect, model@),
    ;
}

} // verus!
