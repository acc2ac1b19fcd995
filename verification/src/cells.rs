use vstd::prelude::*;

verus! {

/// What a cell of the demo grid shows.
#[derive(Clone, Copy, PartialEq, Eq, Structural, Debug)]
pub enum GridCellKind {
    Empty,
    Start,
    End,
    Path,
}

/// One cell of the demo grid: its kind and which of its edges are drawn.
#[derive(Clone, Copy, PartialEq, Eq, Structural, Debug)]
pub struct GridCell {
    pub kind: GridCellKind,
    pub has_left_edge: bool,
    pub has_bottom_edge: bool,
}

impl GridCell {
    /// An empty cell with no edges.
    pub fn new() -> (r: GridCell)
        ensures
            r == (GridCell {
                kind: GridCellKind::Empty,
                has_left_edge: false,
                has_bottom_edge: false,
            }),
    {
        GridCell { kind: GridCellKind::Empty, has_left_edge: false, has_bottom_edge: false }
    }
}

/// A command queued by input handling and applied before the next repaint.
#[derive(Clone, Copy, PartialEq, Eq, Structural, Debug)]
pub enum Command {
    Exit,
    Refresh,
}

/// The keys the demo reacts to; everything else is `Other`.
#[derive(Clone, Copy, PartialEq, Eq, Structural, Debug)]
pub enum Key {
    Escape,
    F5,
    Other,
}

/// An input event, reduced to what the demo's state machine reads. The
/// windowing layer translates its own event type into this one.
#[derive(Clone, Copy, PartialEq, Eq, Structural, Debug)]
pub enum InputEvent {
    KeyReleased(Key),
    Other,
}

} // verus!
