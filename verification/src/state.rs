use vstd::prelude::*;

verus! {

use crate::cells::{Command, GridCell, GridCellKind, InputEvent, Key};
use crate::draw::{CELL_FILL_MARGIN_IN_PX, EDGE_THICKNESS_IN_PX};
use crate::grid::Grid;
use crate::place::{is_boundary_spec, pick_boundary_pair};

/// The cell a freshly built demo grid holds at `(x, y)` before the start
/// and end are placed: cells away from the right and top edges show a
/// path, the outer rows and columns carry drawn edges.
pub open spec fn initial_cell(width: int, height: int, x: int, y: int) -> GridCell {
    GridCell {
        kind: if x != width - 1 && y != height - 1 {
            GridCellKind::Path
        } else {
            GridCellKind::Empty
        },
        has_left_edge: x == 0 || x == width - 1,
        has_bottom_edge: y == 0 || y == height - 1,
    }
}

/// The cell a freshly built demo grid holds at `(x, y)` once the start is
/// placed at `(sx, sy)` and the end at `(ex, ey)`: the initial cell, with
/// the kind overridden at those two positions.
pub open spec fn placed_cell(
    width: int,
    height: int,
    sx: int,
    sy: int,
    ex: int,
    ey: int,
    x: int,
    y: int,
) -> GridCell {
    let base = initial_cell(width, height, x, y);
    GridCell {
        kind: if x == sx && y == sy {
            GridCellKind::Start
        } else if x == ex && y == ey {
            GridCellKind::End
        } else {
            base.kind
        },
        has_left_edge: base.has_left_edge,
        has_bottom_edge: base.has_bottom_edge,
    }
}

/// What a freshly built demo grid looks like: the initial pattern with a
/// start and an end at two distinct boundary positions.
pub open spec fn placed_grid(
    g: Grid<GridCell>,
    width: int,
    height: int,
    sx: int,
    sy: int,
    ex: int,
    ey: int,
) -> bool {
    &&& g.wf()
    &&& g.spec_width() == width
    &&& g.spec_height() == height
    &&& 0 <= sx < width && 0 <= sy < height
    &&& 0 <= ex < width && 0 <= ey < height
    &&& is_boundary_spec(width, height, sx, sy)
    &&& is_boundary_spec(width, height, ex, ey)
    &&& (sx, sy) != (ex, ey)
    &&& forall|x: int, y: int|
        g.in_bounds(x, y) ==> g.cell(x, y) == placed_cell(width, height, sx, sy, ex, ey, x, y)
}

/// Builds the initial cell pattern, every cell as `initial_cell` gives it.
fn init_cells(width: usize, height: usize) -> (g: Grid<GridCell>)
    requires
        2 <= width,
        2 <= height,
        width * height <= usize::MAX,
    ensures
        g.wf(),
        g.spec_width() == width,
        g.spec_height() == height,
        forall|x: int, y: int|
            g.in_bounds(x, y) ==> g.cell(x, y) == initial_cell(width as int, height as int, x, y),
{
    let mut g = match Grid::new(width, height, GridCell::new()) {
        Ok(g) => g,
        Err(_) => unreached(),
    };
    let mut y: usize = 0;
    while y < height
        invariant
            g.wf(),
            g.spec_width() == width,
            g.spec_height() == height,
            y <= height,
            forall|i: int, j: int|
                g.in_bounds(i, j) && j < y
                    ==> g.cell(i, j) == initial_cell(width as int, height as int, i, j),
        decreases height - y,
    {
        let mut x: usize = 0;
        while x < width
            invariant
                g.wf(),
                g.spec_width() == width,
                g.spec_height() == height,
                y < height,
                x <= width,
                forall|i: int, j: int|
                    g.in_bounds(i, j) && j < y
                        ==> g.cell(i, j) == initial_cell(width as int, height as int, i, j),
                forall|i: int| 0 <= i < x
                    ==> g.cell(i, y as int) == initial_cell(width as int, height as int, i, y as int),
            decreases width - x,
        {
            let is_inner_cell = x != width - 1 && y != height - 1;
            let cell = GridCell {
                kind: if is_inner_cell {
                    GridCellKind::Path
                } else {
                    GridCellKind::Empty
                },
                has_left_edge: x == 0 || x == width - 1,
                has_bottom_edge: y == 0 || y == height - 1,
            };
            match g.set(x, y, cell) {
                Ok(()) => (),
                Err(_) => unreached(),
            }
            x = x + 1;
        }
        y = y + 1;
    }
    g
}

/// Overrides the kinds of two distinct cells of the initial pattern: the
/// start at `(sx, sy)` and the end at `(ex, ey)`, keeping their edges.
fn place_start_end(g: &mut Grid<GridCell>, sx: usize, sy: usize, ex: usize, ey: usize)
    requires
        old(g).wf(),
        old(g).in_bounds(sx as int, sy as int),
        old(g).in_bounds(ex as int, ey as int),
        (sx, sy) != (ex, ey),
        forall|x: int, y: int|
            old(g).in_bounds(x, y)
                ==> old(g).cell(x, y) == initial_cell(
                    old(g).spec_width() as int,
                    old(g).spec_height() as int,
                    x,
                    y,
                ),
    ensures
        final(g).wf(),
        final(g).spec_width() == old(g).spec_width(),
        final(g).spec_height() == old(g).spec_height(),
        forall|x: int, y: int|
            final(g).in_bounds(x, y)
                ==> final(g).cell(x, y) == placed_cell(
                    old(g).spec_width() as int,
                    old(g).spec_height() as int,
                    sx as int,
                    sy as int,
                    ex as int,
                    ey as int,
                    x,
                    y,
                ),
{
    let s = match g.get(sx, sy) {
        Ok(c) => *c,
        Err(_) => unreached(),
    };
    match g.set(
        sx,
        sy,
        GridCell {
            kind: GridCellKind::Start,
            has_left_edge: s.has_left_edge,
            has_bottom_edge: s.has_bottom_edge,
        },
    ) {
        Ok(()) => (),
        Err(_) => unreached(),
    }
    let e = match g.get(ex, ey) {
        Ok(c) => *c,
        Err(_) => unreached(),
    };
    match g.set(
        ex,
        ey,
        GridCell {
            kind: GridCellKind::End,
            has_left_edge: e.has_left_edge,
            has_bottom_edge: e.has_bottom_edge,
        },
    ) {
        Ok(()) => (),
        Err(_) => unreached(),
    }
}

/// Builds a fresh demo grid: the initial pattern with a randomly drawn
/// start and end, distinct and both on the outer boundary.
pub fn create_grid(width: usize, height: usize) -> (g: Grid<GridCell>)
    requires
        2 <= width,
        2 <= height,
        width * height <= usize::MAX,
        2 * width + 2 * height <= usize::MAX,
    ensures
        g.wf(),
        g.spec_width() == width,
        g.spec_height() == height,
        exists|sx: int, sy: int, ex: int, ey: int|
            placed_grid(g, width as int, height as int, sx, sy, ex, ey),
{
    let mut g = init_cells(width, height);
    let (s, e) = pick_boundary_pair(width, height);
    place_start_end(&mut g, s.0, s.1, e.0, e.1);
    proof {
        assert(placed_grid(
            g,
            width as int,
            height as int,
            s.0 as int,
            s.1 as int,
            e.0 as int,
            e.1 as int,
        ));
    }
    g
}

/// The command a released key maps to: escape exits, F5 regenerates.
pub open spec fn command_for_key(key: Key) -> Option<Command> {
    match key {
        Key::Escape => Some(Command::Exit),
        Key::F5 => Some(Command::Refresh),
        Key::Other => None,
    }
}

/// The demo's per-frame state: the grid, the pixel scale of one cell, and
/// at most one pending command.
pub struct GridState {
    pub grid: Grid<GridCell>,
    pub scale: usize,
    pub next_command: Option<Command>,
}

impl GridState {
    /// The state invariant: a well-formed grid with both dimensions at
    /// least two, and a scale that leaves room for the cell margin, with
    /// every pixel coordinate of the canvas fitting in `usize`.
    pub open spec fn wf(&self) -> bool {
        &&& self.grid.wf()
        &&& self.grid.spec_width() >= 2
        &&& self.grid.spec_height() >= 2
        &&& self.scale >= 2 * CELL_FILL_MARGIN_IN_PX
        &&& self.scale >= EDGE_THICKNESS_IN_PX
        &&& self.grid.spec_width() * self.scale <= usize::MAX
        &&& self.grid.spec_height() * self.scale <= usize::MAX
        &&& self.grid.spec_width() * self.grid.spec_height() <= usize::MAX
        &&& 2 * self.grid.spec_width() + 2 * self.grid.spec_height() <= usize::MAX
    }

    /// Builds the initial demo state with a fresh random grid and no
    /// pending command.
    pub fn new(width: usize, height: usize, scale: usize) -> (s: GridState)
        requires
            2 <= width,
            2 <= height,
            scale >= 2 * CELL_FILL_MARGIN_IN_PX,
            scale >= EDGE_THICKNESS_IN_PX,
            width * scale <= usize::MAX,
            height * scale <= usize::MAX,
            width * height <= usize::MAX,
            2 * width + 2 * height <= usize::MAX,
        ensures
            s.wf(),
            s.grid.spec_width() == width,
            s.grid.spec_height() == height,
            s.scale == scale,
            s.next_command is None,
            exists|sx: int, sy: int, ex: int, ey: int|
                placed_grid(s.grid, width as int, height as int, sx, sy, ex, ey),
    {
        GridState { grid: create_grid(width, height), scale, next_command: None }
    }

    /// Applies the pending command, if any, and clears it. `Refresh`
    /// regenerates the grid with the same dimensions; `Exit` is reported
    /// to the caller as `true`, the demo's cancellation signal, instead of
    /// tearing the process down here.
    pub fn process_command(&mut self) -> (exit: bool)
        requires
            old(self).wf(),
        ensures
            final(self).wf(),
            final(self).next_command is None,
            final(self).scale == old(self).scale,
            final(self).grid.spec_width() == old(self).grid.spec_width(),
            final(self).grid.spec_height() == old(self).grid.spec_height(),
            exit == (old(self).next_command == Some(Command::Exit)),
            old(self).next_command != Some(Command::Refresh)
                ==> final(self).grid == old(self).grid,
            old(self).next_command == Some(Command::Refresh)
                ==> exists|sx: int, sy: int, ex: int, ey: int|
                    placed_grid(
                        final(self).grid,
                        old(self).grid.spec_width() as int,
                        old(self).grid.spec_height() as int,
                        sx,
                        sy,
                        ex,
                        ey,
                    ),
    {
        let mut exit = false;
        match self.next_command {
            Some(Command::Exit) => {
                exit = true;
            },
            Some(Command::Refresh) => {
                let w = self.grid.width();
                let h = self.grid.height();
                self.grid = create_grid(w, h);
            },
            None => {},
        }
        self.next_command = None;
        exit
    }

    /// Applies one input event: a key release queues its command when none
    /// is pending; everything else changes nothing. Returns whether the
    /// event was consumed.
    pub fn handle_input(&mut self, event: &InputEvent) -> (consumed: bool)
        requires
            old(self).wf(),
        ensures
            final(self).wf(),
            final(self).grid == old(self).grid,
            final(self).scale == old(self).scale,
            old(self).next_command is Some ==> *final(self) == *old(self) && !consumed,
            old(self).next_command is None ==> (*event matches InputEvent::KeyReleased(k) ==> {
                &&& final(self).next_command == command_for_key(k)
                &&& consumed == (command_for_key(k) is Some)
            }),
            old(self).next_command is None && *event is Other
                ==> *final(self) == *old(self) && !consumed,
    {
        if self.next_command.is_none() {
            match event {
                InputEvent::KeyReleased(key) => {
                    self.next_command = match key {
                        Key::Escape => Some(Command::Exit),
                        Key::F5 => Some(Command::Refresh),
                        Key::Other => None,
                    };
                    self.next_command.is_some()
                },
                InputEvent::Other => false,
            }
        } else {
            false
        }
    }
}

} // verus!
