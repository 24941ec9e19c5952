//! The pointer-driven selection state machine.
use vstd::prelude::*;
use crate::geometry::{Area, Position};

verus! {

/// Where a selection stands.
#[derive(Clone, Copy, Debug, PartialEq, Eq, Structural)]
pub enum SelectionState {
    /// No pointer movement seen yet.
    Idle,
    /// A drag is under way; `start` of the area is the fixed anchor and
    /// `end` the latest pointer position.
    Dragging(Area),
    /// The drag ended on this rectangle.
    Finalized(Area),
}

/// The state after a pointer move to `p`: the first move fixes the anchor,
/// later moves replace only the moving corner, and a finished selection
/// ignores further moves.
pub open spec fn state_after_move(s: SelectionState, p: Position) -> SelectionState {
    match s {
        SelectionState::Idle => SelectionState::Dragging(Area { start: p, end: p }),
        SelectionState::Dragging(a) => SelectionState::Dragging(Area { start: a.start, end: p }),
        SelectionState::Finalized(a) => SelectionState::Finalized(a),
    }
}

/// The state after a pointer release.
pub open spec fn state_after_release(s: SelectionState) -> SelectionState {
    match s {
        SelectionState::Dragging(a) => SelectionState::Finalized(a),
        _ => s,
    }
}

/// The completion event that a release emits: only a release that ends a
/// drag completes the selection.
pub open spec fn completion_on_release(s: SelectionState) -> Option<Area> {
    match s {
        SelectionState::Dragging(a) => Some(a),
        _ => None,
    }
}

/// The rectangle to show: the one being dragged or the finished one.
pub open spec fn current_area(s: SelectionState) -> Option<Area> {
    match s {
        SelectionState::Idle => None,
        SelectionState::Dragging(a) => Some(a),
        SelectionState::Finalized(a) => Some(a),
    }
}

/// The state after a run of pointer moves, in order.
pub open spec fn state_after_moves(s: SelectionState, ps: Seq<Position>) -> SelectionState
    decreases ps.len(),
{
    if ps.len() == 0 {
        s
    } else {
        state_after_moves(state_after_move(s, ps[0]), ps.drop_first())
    }
}

/// The outline of a selection rectangle, normalized to its top-left corner.
#[derive(Clone, Copy, Debug, PartialEq, Eq, Structural)]
pub struct Outline {
    pub x: i32,
    pub y: i32,
    pub width: u32,
    pub height: u32,
}

/// Tracks one selection from the first pointer move to the release.
#[derive(Clone, Copy, Debug)]
pub struct AreaSelectionFeature {
    pub state: SelectionState,
}

impl Default for AreaSelectionFeature {
    fn default() -> (r: Self)
        ensures
            r.state == SelectionState::Idle,
    {
        AreaSelectionFeature { state: SelectionState::Idle }
    }
}

impl AreaSelectionFeature {
    /// A selection that has seen no pointer event.
    pub fn new() -> (r: Self)
        ensures
            r.state == SelectionState::Idle,
    {
        AreaSelectionFeature { state: SelectionState::Idle }
    }

    /// Handles a pointer move to `p`. Returns whether the overlay must be
    /// redrawn: exactly when the move changed the selection.
    pub fn record_area_selection(&mut self, p: Position) -> (redraw: bool)
        ensures
            final(self).state == state_after_move(old(self).state, p),
            redraw == !(old(self).state is Finalized),
    {
        match self.state {
            SelectionState::Idle => {
                self.state = SelectionState::Dragging(Area { start: p, end: p });
                true
            },
            SelectionState::Dragging(a) => {
                self.state = SelectionState::Dragging(Area { start: a.start, end: p });
                true
            },
            SelectionState::Finalized(_) => false,
        }
    }

    /// Handles a pointer release. Returns the finished rectangle when the
    /// release ends a drag, and nothing otherwise.
    pub fn stop_recording_area_selection(&mut self) -> (r: Option<Area>)
        ensures
            final(self).state == state_after_release(old(self).state),
            r == completion_on_release(old(self).state),
    {
        match self.state {
            SelectionState::Dragging(a) => {
                self.state = SelectionState::Finalized(a);
                Some(a)
            },
            _ => None,
        }
    }

    /// A snapshot of the current rectangle, if any.
    pub fn selected_area(&self) -> (r: Option<Area>)
        ensures
            r == current_area(self.state),
    {
        match self.state {
            SelectionState::Idle => None,
            SelectionState::Dragging(a) => Some(a),
            SelectionState::Finalized(a) => Some(a),
        }
    }

    /// What the renderer strokes: the current rectangle, from its top-left
    /// corner, with its width and height.
    pub fn draw_selected_area(&self) -> (r: Option<Outline>)
        ensures
            current_area(self.state) is None ==> r is None,
            current_area(self.state) is Some ==> r is Some && {
                let a = current_area(self.state)->0;
                let o = r->0;
                &&& o.x as int == a.left_spec()
                &&& o.y as int == a.top_spec()
                &&& o.width as int == a.width_spec()
                &&& o.height as int == a.height_spec()
            },
    {
        match self.selected_area() {
            None => None,
            Some(a) => {
                let corner = a.top_left();
                Some(Outline { x: corner.x, y: corner.y, width: a.get_width(), height: a.get_height() })
            },
        }
    }
}

/// Moves during a drag keep its anchor and move only its end.
pub proof fn lemma_moves_keep_anchor(a: Area, ps: Seq<Position>)
    ensures
        state_after_moves(SelectionState::Dragging(a), ps) == SelectionState::Dragging(
            Area { start: a.start, end: if ps.len() == 0 { a.end } else { ps.last() } },
        ),
    decreases ps.len(),
{
    if ps.len() > 0 {
        let next = Area { start: a.start, end: ps[0] };
        lemma_moves_keep_anchor(next, ps.drop_first());
        if ps.len() > 1 {
            assert(ps.drop_first().last() == ps.last());
        }
    }
}

/// For any non-empty run of moves from a fresh selection followed by a
/// release, the release completes the selection exactly once, with the
/// first move as anchor and the last move as end; the selection is then
/// finished on that rectangle.
pub proof fn lemma_anchor_is_first_move(ps: Seq<Position>)
    requires
        ps.len() > 0,
    ensures
        completion_on_release(state_after_moves(SelectionState::Idle, ps)) == Some(
            Area { start: ps[0], end: ps.last() },
        ),
        state_after_release(state_after_moves(SelectionState::Idle, ps))
            == SelectionState::Finalized(Area { start: ps[0], end: ps.last() }),
{
    lemma_moves_keep_anchor(Area { start: ps[0], end: ps[0] }, ps.drop_first());
    if ps.len() > 1 {
        assert(ps.drop_first().last() == ps.last());
    }
}

/// A release with no move before it completes nothing and leaves the
/// selection where it was.
pub proof fn lemma_release_without_moves()
    ensures
        completion_on_release(SelectionState::Idle) is None,
        state_after_release(SelectionState::Idle) == SelectionState::Idle,
{
}

/// Once a selection is finished, further moves and releases change nothing
/// and complete nothing: a selection completes at most once.
pub proof fn lemma_finalized_is_final(a: Area, p: Position)
    ensures
        state_after_move(SelectionState::Finalized(a), p) == SelectionState::Finalized(a),
        state_after_release(SelectionState::Finalized(a)) == SelectionState::Finalized(a),
        completion_on_release(SelectionState::Finalized(a)) is None,
{
}

} // verus!
