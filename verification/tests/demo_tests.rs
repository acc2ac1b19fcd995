use maze_grid::cells::{Command, GridCell, GridCellKind, InputEvent, Key};
use maze_grid::draw::{Color, CELL_FILL_MARGIN_IN_PX, EDGE_THICKNESS_IN_PX, SCALE_IN_PX};
use maze_grid::grid::Grid;
use maze_grid::place::{boundary_cell, is_boundary, pick_boundary_pair};
use maze_grid::state::{create_grid, GridState};

#[test]
fn grid_cell_new_is_empty_without_edges() {
    let c = GridCell::new();
    assert_eq!(c.kind, GridCellKind::Empty);
    assert!(!c.has_left_edge);
    assert!(!c.has_bottom_edge);
}

#[test]
fn boundary_predicate() {
    assert!(is_boundary(10, 10, 0, 5));
    assert!(is_boundary(10, 10, 9, 5));
    assert!(is_boundary(10, 10, 5, 0));
    assert!(is_boundary(10, 10, 5, 9));
    assert!(!is_boundary(10, 10, 5, 5));
    assert!(!is_boundary(10, 10, 1, 8));
}

#[test]
fn boundary_cells_are_distinct_and_on_the_boundary() {
    // a 4 x 3 grid has 2*4 + 2*3 - 4 = 10 boundary cells
    let count = 10;
    let mut seen = Vec::new();
    for k in 0..count {
        let (x, y) = boundary_cell(4, 3, k);
        assert!(x < 4 && y < 3);
        assert!(is_boundary(4, 3, x, y));
        assert!(!seen.contains(&(x, y)));
        seen.push((x, y));
    }
}

#[test]
fn boundary_pair_sampling_never_degenerates() {
    for _ in 0..10_000 {
        let ((sx, sy), (ex, ey)) = pick_boundary_pair(10, 10);
        assert!(sx == 0 || sx == 9 || sy == 0 || sy == 9);
        assert!(ex == 0 || ex == 9 || ey == 0 || ey == 9);
        assert!((sx, sy) != (ex, ey));
    }
}

#[test]
fn created_grid_has_the_demo_pattern() {
    for _ in 0..200 {
        let g = create_grid(5, 4);
        assert_eq!(g.width(), 5);
        assert_eq!(g.height(), 4);
        let mut starts = Vec::new();
        let mut ends = Vec::new();
        for y in 0..4 {
            for x in 0..5 {
                let c = *g.get(x, y).unwrap();
                assert_eq!(c.has_left_edge, x == 0 || x == 4);
                assert_eq!(c.has_bottom_edge, y == 0 || y == 3);
                match c.kind {
                    GridCellKind::Start => starts.push((x, y)),
                    GridCellKind::End => ends.push((x, y)),
                    kind => {
                        // untouched cells keep the initial pattern
                        let inner = x != 4 && y != 3;
                        if inner {
                            assert_eq!(kind, GridCellKind::Path);
                        } else {
                            assert_eq!(kind, GridCellKind::Empty);
                        }
                    }
                }
            }
        }
        assert_eq!(starts.len(), 1);
        assert_eq!(ends.len(), 1);
        assert!(is_boundary(5, 4, starts[0].0, starts[0].1));
        assert!(is_boundary(5, 4, ends[0].0, ends[0].1));
        assert_ne!(starts[0], ends[0]);
    }
}

#[test]
fn input_queues_commands() {
    let mut s = GridState::new(10, 10, SCALE_IN_PX);
    assert_eq!(s.next_command, None);

    assert!(!s.handle_input(&InputEvent::KeyReleased(Key::Other)));
    assert_eq!(s.next_command, None);
    assert!(!s.handle_input(&InputEvent::Other));
    assert_eq!(s.next_command, None);

    assert!(s.handle_input(&InputEvent::KeyReleased(Key::Escape)));
    assert_eq!(s.next_command, Some(Command::Exit));

    // a pending command is not overwritten
    assert!(!s.handle_input(&InputEvent::KeyReleased(Key::F5)));
    assert_eq!(s.next_command, Some(Command::Exit));
}

#[test]
fn process_command_exits_refreshes_and_clears() {
    let mut s = GridState::new(10, 10, SCALE_IN_PX);

    assert!(!s.process_command());
    assert_eq!(s.next_command, None);

    s.handle_input(&InputEvent::KeyReleased(Key::Escape));
    assert!(s.process_command());
    assert_eq!(s.next_command, None);

    s.handle_input(&InputEvent::KeyReleased(Key::F5));
    assert!(!s.process_command());
    assert_eq!(s.next_command, None);
    assert_eq!(s.grid.width(), 10);
    assert_eq!(s.grid.height(), 10);
}

fn plain_state(width: usize, height: usize) -> GridState {
    let grid = Grid::new(width, height, GridCell::new()).unwrap();
    GridState { grid, scale: SCALE_IN_PX, next_command: None }
}

#[test]
fn canvas_size_scales_the_grid() {
    let s = plain_state(10, 10);
    assert_eq!(s.canvas_size(), (500, 500));
}

#[test]
fn edge_and_cell_boxes_have_the_demo_geometry() {
    let s = plain_state(4, 4);

    let v = s.vertical_edge_box(2, 1, 2);
    assert_eq!((v.x1, v.y1, v.x2, v.y2), (100, 50, 100 + EDGE_THICKNESS_IN_PX, 100));
    assert_eq!(v.color, Color { r: 0, g: 0, b: 255 });

    let h = s.horizontal_edge_box(1, 2, 3);
    assert_eq!((h.x1, h.y1, h.x2, h.y2), (50, 150, 100, 150 + EDGE_THICKNESS_IN_PX));
    assert_eq!(h.color, Color { r: 255, g: 0, b: 0 });

    let c = s.cell_box(1, 2);
    assert_eq!(
        (c.x1, c.y1, c.x2, c.y2),
        (
            50 + CELL_FILL_MARGIN_IN_PX,
            100 + CELL_FILL_MARGIN_IN_PX,
            100 - CELL_FILL_MARGIN_IN_PX,
            150 - CELL_FILL_MARGIN_IN_PX
        )
    );
    // an empty cell is filled white
    assert_eq!(c.color, Color { r: 255, g: 255, b: 255 });
}

#[test]
fn render_paints_background_then_cells() {
    let mut s = plain_state(2, 2);
    // give the left column a shared left edge and the bottom row a shared
    // bottom edge, and color one cell
    s.grid.set(
        0,
        0,
        GridCell { kind: GridCellKind::Start, has_left_edge: true, has_bottom_edge: true },
    )
    .unwrap();
    s.grid.set(
        0,
        1,
        GridCell { kind: GridCellKind::Empty, has_left_edge: true, has_bottom_edge: false },
    )
    .unwrap();
    s.grid.set(
        1,
        0,
        GridCell { kind: GridCellKind::Path, has_left_edge: false, has_bottom_edge: true },
    )
    .unwrap();

    let boxes = s.render_boxes();

    // background, a vertical edge and a horizontal edge at (0, 0), and one
    // fill box for each of the four cells
    assert_eq!(boxes.len(), 7);
    let bg = boxes[0];
    assert_eq!((bg.x1, bg.y1, bg.x2, bg.y2), (0, 0, 100, 100));
    assert_eq!(bg.color, Color { r: 255, g: 255, b: 255 });

    let v = boxes[1];
    assert_eq!((v.x1, v.y1, v.x2, v.y2), (0, 0, EDGE_THICKNESS_IN_PX, 50));
    assert_eq!(v.color, Color { r: 0, g: 0, b: 255 });

    let h = boxes[2];
    assert_eq!((h.x1, h.y1, h.x2, h.y2), (0, 0, 50, EDGE_THICKNESS_IN_PX));
    assert_eq!(h.color, Color { r: 255, g: 0, b: 0 });

    // the start cell is green, the path cell blue, the empty cells white
    assert_eq!(boxes[3].color, Color { r: 50, g: 255, b: 50 });
    assert_eq!(boxes[4].color, Color { r: 50, g: 50, b: 255 });
    assert_eq!(boxes[5].color, Color { r: 255, g: 255, b: 255 });
    assert_eq!(boxes[6].color, Color { r: 255, g: 255, b: 255 });
    // fill boxes appear in row-major cell order
    assert_eq!((boxes[3].x1, boxes[3].y1), (10, 10));
    assert_eq!((boxes[4].x1, boxes[4].y1), (60, 10));
    assert_eq!((boxes[5].x1, boxes[5].y1), (10, 60));
    assert_eq!((boxes[6].x1, boxes[6].y1), (60, 60));
}
