use bracket_lib::pathfinding::field_of_view_set;
use bracket_lib::prelude::{Algorithm2D, BaseMap, Point};

use tile_fov::grid::{idx_xy, xy_idx, TileType, HEIGHT, WIDTH};
use tile_fov::player::{player_input, try_move_player, Player};
use tile_fov::shade::intensity_milli;
use tile_fov::state::{scatter_cell, State, FOV_RADIUS};

const N: usize = (WIDTH as usize) * (HEIGHT as usize);

/// A map the line-of-sight collaborator can walk: mirrors a `State`'s
/// dimensions and opacity.
struct SightMap {
    opaque: Vec<bool>,
}

impl SightMap {
    fn of(state: &State) -> SightMap {
        let mut opaque = Vec::with_capacity(N);
        for idx in 0..N {
            opaque.push(state.is_opaque(idx));
        }
        SightMap { opaque }
    }
}

impl BaseMap for SightMap {
    fn is_opaque(&self, idx: usize) -> bool {
        self.opaque[idx]
    }
}

impl Algorithm2D for SightMap {
    fn dimensions(&self) -> Point {
        Point::new(WIDTH, HEIGHT)
    }
}

/// Runs one frame's visibility: asks the collaborator for the field of
/// view and installs it into the state.
fn run_fov(state: &mut State) {
    let sight = SightMap::of(state);
    let center = {
        let (x, y) = idx_xy(state.player_position);
        Point::new(x, y)
    };
    let fov = field_of_view_set(center, FOV_RADIUS, &sight);
    let points: Vec<(i32, i32)> = fov.iter().map(|p| (p.x, p.y)).collect();
    state.compute_visible(&points);
}

/// An all-floor map with the player at (32, 26), for hand-built scenarios.
fn open_state() -> State {
    State {
        map: vec![TileType::Floor; N],
        player_position: xy_idx(32, 26),
        visible: vec![false; N],
        floor_glyphs: vec![519; N],
        wall_glyphs: vec![206; N],
    }
}

#[test]
fn index_round_trip_all_cells() {
    for y in 0..HEIGHT {
        for x in 0..WIDTH {
            let idx = xy_idx(x, y);
            assert_eq!(idx_xy(idx), (x, y));
        }
    }
    assert_eq!(xy_idx(32, 26), 26 * 65 + 32);
}

#[test]
fn generation_border_is_wall() {
    let state = State::new();
    for x in 0..WIDTH {
        assert_eq!(state.map[xy_idx(x, 0)], TileType::Wall);
        assert_eq!(state.map[xy_idx(x, HEIGHT - 1)], TileType::Wall);
    }
    for y in 0..HEIGHT {
        assert_eq!(state.map[xy_idx(0, y)], TileType::Wall);
        assert_eq!(state.map[xy_idx(WIDTH - 1, y)], TileType::Wall);
    }
    assert_eq!(state.map[xy_idx(0, 0)], TileType::Wall);
    assert_eq!(state.map[xy_idx(64, 51)], TileType::Wall);
}

#[test]
fn generation_start_is_floor() {
    // Whatever the seed drew, the start cell stays floor.
    for _ in 0..20 {
        let state = State::new();
        assert_eq!(state.player_position, xy_idx(WIDTH / 2, HEIGHT / 2));
        assert_eq!(state.map[state.player_position], TileType::Floor);
    }
}

#[test]
fn generation_tables_cover_grid() {
    let state = State::new();
    assert_eq!(state.map.len(), N);
    assert_eq!(state.visible.len(), N);
    assert_eq!(state.floor_glyphs.len(), N);
    assert_eq!(state.wall_glyphs.len(), N);
    for i in 0..N {
        assert!((519..=522).contains(&state.floor_glyphs[i]));
        assert!((206..=207).contains(&state.wall_glyphs[i]));
        assert!(!state.visible[i]);
    }
    // At most the scatter count of interior cells became walls.
    let interior_walls = (1..HEIGHT - 1)
        .flat_map(|y| (1..WIDTH - 1).map(move |x| (x, y)))
        .filter(|&(x, y)| state.map[xy_idx(x, y)] == TileType::Wall)
        .count();
    assert!(interior_walls <= 400);
    // The draws are uniform over some three thousand interior cells, so
    // collisions are few: far more than a handful of distinct cells hit.
    assert!(interior_walls > 50);
    // And the glyph draws vary from cell to cell.
    let first = state.floor_glyphs[0];
    assert!(state.floor_glyphs.iter().any(|&g| g != first));
}

#[test]
fn visibility_keeps_observer_and_drops_out_of_bounds() {
    let mut state = open_state();
    let points = vec![(-1, 3), (70, 1), (5, 60), (3, -2), (10, 10), (0, 0)];
    state.compute_visible(&points);
    // The observer's own cell is always lit, even though no point named it.
    assert!(state.visible[state.player_position]);
    // In-bounds points mark their cells; nothing else is lit.
    assert!(state.visible[xy_idx(10, 10)]);
    assert!(state.visible[xy_idx(0, 0)]);
    let lit = (0..N).filter(|&i| state.visible[i]).count();
    assert_eq!(lit, 3);
}

#[test]
fn visibility_cleared_before_recomputation() {
    let mut state = open_state();
    state.compute_visible(&vec![(1, 1), (2, 2)]);
    assert!(state.visible[xy_idx(1, 1)]);
    state.compute_visible(&vec![(3, 3)]);
    assert!(!state.visible[xy_idx(1, 1)]);
    assert!(!state.visible[xy_idx(2, 2)]);
    assert!(state.visible[xy_idx(3, 3)]);
}

#[test]
fn visibility_wall_occludes_line_of_sight() {
    let mut state = open_state();
    state.player_position = xy_idx(5, 5);
    state.map[xy_idx(5, 7)] = TileType::Wall;
    run_fov(&mut state);
    // The open cell before the wall is seen; the cell beyond it is not.
    assert!(state.visible[xy_idx(5, 6)]);
    assert!(!state.visible[xy_idx(5, 9)]);
    // The wall itself is seen, and so is the observer's cell.
    assert!(state.visible[xy_idx(5, 7)]);
    assert!(state.visible[xy_idx(5, 5)]);
}

#[test]
fn visibility_stays_within_radius_and_bounds() {
    let mut state = State::new();
    run_fov(&mut state);
    let (px, py) = idx_xy(state.player_position);
    for i in 0..N {
        if state.visible[i] && i != state.player_position {
            let (x, y) = idx_xy(i);
            let d2 = ((x - px) * (x - px) + (y - py) * (y - py)) as f64;
            // Recursive shadowcasting measures against cell edges, so give
            // the Euclidean radius half a cell of slack.
            assert!(d2.sqrt() <= FOV_RADIUS as f64 + 0.75);
        }
    }
}

#[test]
fn intensity_matches_distance_formula() {
    // At the observer: full brightness.
    assert_eq!(intensity_milli(5, 5, 5, 5), 1000);
    // Distance 1: 1 - 1/10.
    assert_eq!(intensity_milli(6, 5, 5, 5), 900);
    // Distance 2: 1 - 2/10.
    assert_eq!(intensity_milli(5, 7, 5, 5), 800);
    // Distance sqrt(2): floor(1000 * sqrt(2)) = 1414, so 1000 - 141.
    assert_eq!(intensity_milli(6, 6, 5, 5), 859);
    // At or beyond distance 10 the clamp holds the result at zero.
    assert_eq!(intensity_milli(15, 5, 5, 5), 0);
    assert_eq!(intensity_milli(0, 0, 40, 30), 0);
    // Everywhere on the grid: within [0, 1000] and equal to 1 - d/10.
    for y in 0..HEIGHT {
        for x in 0..WIDTH {
            let got = intensity_milli(x, y, 32, 26);
            assert!((0..=1000).contains(&got));
            let d = (((x - 32) * (x - 32) + (y - 26) * (y - 26)) as f64).sqrt();
            let expected = ((1.0 - d / 10.0).max(0.0) * 1000.0).round() as i64;
            assert!((got as i64 - expected).abs() <= 2);
        }
    }
}

#[test]
fn draw_commands_shade_by_visibility() {
    let mut state = open_state();
    state.map[xy_idx(2, 3)] = TileType::Wall;
    state.compute_visible(&vec![(33, 26), (2, 3)]);
    let cmds = state.draw_commands(1000);
    assert_eq!(cmds.len(), N);
    for (i, c) in cmds.iter().enumerate() {
        let (x, y) = idx_xy(i);
        assert_eq!((c.x, c.y), (x, y));
        let expected_glyph = match state.map[i] {
            TileType::Floor => state.floor_glyphs[i],
            TileType::Wall => state.wall_glyphs[i],
        };
        assert_eq!(c.glyph, expected_glyph);
        if state.visible[i] {
            assert_eq!(c.fg_milli, intensity_milli(x, y, 32, 26));
        } else {
            assert_eq!(c.fg_milli, 1000);
        }
    }
    // The observer's cell is visible at distance zero: full brightness.
    assert_eq!(cmds[state.player_position].fg_milli, 1000);
    // The lit neighbour one cell away is dimmed by a tenth.
    assert_eq!(cmds[xy_idx(33, 26)].fg_milli, 900);
    // A different dim tone reaches every unlit cell.
    let dimmed = state.draw_commands(300);
    assert_eq!(dimmed[xy_idx(10, 10)].fg_milli, 300);
}

#[test]
fn move_into_wall_is_rejected() {
    let mut state = State::new();
    assert_eq!(state.player_position, 26 * 65 + 32);
    // Force a wall to the east and try to step onto it.
    state.map[xy_idx(33, 26)] = TileType::Wall;
    state.move_player(1, 0);
    assert_eq!(state.player_position, xy_idx(32, 26));
    // Clear it to floor and the same step is taken.
    state.map[xy_idx(33, 26)] = TileType::Floor;
    state.move_player(1, 0);
    assert_eq!(state.player_position, xy_idx(33, 26));
    // Map and visibility are untouched by moves.
    assert_eq!(state.map[xy_idx(33, 26)], TileType::Floor);
}

#[test]
fn move_onto_floor_updates_position() {
    let mut state = open_state();
    state.move_player(-1, 1);
    assert_eq!(state.player_position, xy_idx(31, 27));
    state.move_player(0, -1);
    assert_eq!(state.player_position, xy_idx(31, 26));
}

#[test]
fn continuous_diagonal_step() {
    // Normalized diagonal at 16 ms: 0.707 * 100 * 0.016 = 1.13 units,
    // truncated to one whole unit on each axis.
    let mut p = Player { x: 0, y: 0 };
    try_move_player(1, 1, &mut p, 16);
    assert_eq!((p.x, p.y), (1, 1));
    let mut q = Player { x: 10, y: 20 };
    try_move_player(-1, -1, &mut q, 16);
    assert_eq!((q.x, q.y), (8, 18));
}

#[test]
fn continuous_single_axis_step() {
    // A lone axis keeps unit length: 100 units over a full second.
    let mut p = Player { x: 0, y: 0 };
    try_move_player(1, 0, &mut p, 1000);
    assert_eq!((p.x, p.y), (100, 0));
    let mut q = Player { x: 50, y: 50 };
    try_move_player(0, -1, &mut q, 100);
    assert_eq!((q.x, q.y), (50, 40));
}

#[test]
fn scatter_step_walls_cell_but_spares_start() {
    let mut map = vec![TileType::Floor; N];
    let start = xy_idx(32, 26);
    // A draw that lands on the start cell changes nothing.
    scatter_cell(&mut map, start, 32, 26);
    assert_eq!(map[start], TileType::Floor);
    // Any other draw walls exactly its own cell.
    scatter_cell(&mut map, start, 10, 12);
    assert_eq!(map[xy_idx(10, 12)], TileType::Wall);
    for i in 0..N {
        if i != xy_idx(10, 12) {
            assert_eq!(map[i], TileType::Floor);
        }
    }
}

#[test]
fn continuous_long_frame() {
    // An hour-long frame: 0.707 * 100 * 3600 = 254520.7 per axis,
    // computed as 70700 * 3600000 / 1000 / 1000 in thousandths.
    let mut p = Player { x: 0, y: 0 };
    try_move_player(1, 1, &mut p, 3_600_000);
    assert_eq!((p.x, p.y), (254520, 254520));
}

#[test]
fn continuous_zero_input_stays_put() {
    let mut p = Player { x: 7, y: -3 };
    try_move_player(0, 0, &mut p, 16);
    assert_eq!((p.x, p.y), (7, -3));
}

#[test]
fn input_keys_map_to_directions() {
    let mut p = Player { x: 0, y: 0 };
    player_input(false, false, false, true, &mut p, 1000);
    assert_eq!((p.x, p.y), (100, 0));
    let mut q = Player { x: 0, y: 0 };
    player_input(true, false, false, false, &mut q, 1000);
    assert_eq!((q.x, q.y), (0, -100));
    // Opposed keys: the later-sampled key wins.
    let mut r = Player { x: 0, y: 0 };
    player_input(true, true, false, false, &mut r, 1000);
    assert_eq!((r.x, r.y), (0, 100));
}

#[test]
fn opacity_follows_walls() {
    let state = State::new();
    assert!(state.is_opaque(xy_idx(0, 0)));
    assert!(!state.is_opaque(state.player_position));
    assert_eq!(state.dimensions(), (WIDTH, HEIGHT));
}
