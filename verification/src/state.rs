//! The game state over the tile map: generation with a random wall scatter,
//! the opacity predicate that the line-of-sight collaborator consults, the
//! per-frame visibility set, the shaded draw commands, and the discrete
//! player move that walls silently reject.
use vstd::prelude::*;

use crate::grid::{
    TileType, WIDTH, HEIGHT, grid_len, in_bounds, spec_xy_idx, spec_idx_x, spec_idx_y, xy_idx,
    idx_xy, lemma_index_round_trip,
};
use crate::random::{rng_new, rng_range, rng_roll_dice};
use crate::shade::{intensity_milli, spec_intensity, dist2, INTENSITY_FULL};

verus! {

/// Radius, in cells, of the field of view handed to the line-of-sight
/// collaborator each frame.
pub const FOV_RADIUS: i32 = 8;

/// How many interior cells the generator tries to turn into walls.
pub const SCATTER_COUNT: u32 = 400;

/// The whole mutable state of the tile demo: one cell kind per grid index,
/// the player's cell, the visibility set of the current frame, and the
/// decorative glyph chosen once for every cell.
pub struct State {
    pub map: Vec<TileType>,
    pub player_position: usize,
    pub visible: Vec<bool>,
    pub floor_glyphs: Vec<i32>,
    pub wall_glyphs: Vec<i32>,
}

/// One cell of a rendered frame: where to draw, which glyph, and the
/// foreground brightness in thousandths (the background stays black).
pub struct DrawCommand {
    pub x: i32,
    pub y: i32,
    pub glyph: i32,
    pub fg_milli: i32,
}

/// True when the cell with linear index `i` lies on the map's border ring.
pub open spec fn is_border(i: int) -> bool {
    spec_idx_x(i) == 0 || spec_idx_x(i) == WIDTH - 1 || spec_idx_y(i) == 0 || spec_idx_y(i)
        == HEIGHT - 1
}

/// True when the point `p`, handed back by the line-of-sight collaborator,
/// lies on the map and names the cell with linear index `i`.
pub open spec fn marks_cell(p: (i32, i32), i: int) -> bool {
    in_bounds(p.0 as int, p.1 as int) && spec_xy_idx(p.0 as int, p.1 as int) == i
}

/// True when some of the first `k` points marks the cell with index `i`.
pub open spec fn fov_marks_upto(fov: Seq<(i32, i32)>, k: int, i: int) -> bool {
    exists|j: int| 0 <= j < k && #[trigger] marks_cell(fov[j], i)
}

/// True when some point of the list marks the cell with index `i`.
pub open spec fn fov_marks(fov: Seq<(i32, i32)>, i: int) -> bool {
    fov_marks_upto(fov, fov.len() as int, i)
}

/// One step of the wall scatter, for one drawn cell: the cell at (x, y)
/// becomes a wall — unless it is the protected start cell, which is left
/// exactly as it stands. Which cells are drawn is the random source's
/// affair; what each draw does to the map is fixed here.
pub fn scatter_cell(map: &mut Vec<TileType>, start: usize, x: i32, y: i32)
    requires
        old(map)@.len() == grid_len(),
        in_bounds(x as int, y as int),
    ensures
        final(map)@ == (if spec_xy_idx(x as int, y as int) == start {
            old(map)@
        } else {
            old(map)@.update(spec_xy_idx(x as int, y as int), TileType::Wall)
        }),
{
    let idx = xy_idx(x, y);
    if start != idx {
        map[idx] = TileType::Wall;
    }
}

impl State {
    /// Every lookup table covers the grid exactly, and the player stands on
    /// a cell of it.
    pub open spec fn wf(self) -> bool {
        &&& self.map@.len() == grid_len()
        &&& self.visible@.len() == grid_len()
        &&& self.floor_glyphs@.len() == grid_len()
        &&& self.wall_glyphs@.len() == grid_len()
        &&& self.player_position < grid_len()
    }

    /// The border ring of the map is all walls.
    pub open spec fn border_walled(self) -> bool {
        forall|x: int, y: int|
            in_bounds(x, y) && (x == 0 || x == WIDTH - 1 || y == 0 || y == HEIGHT - 1)
                ==> self.map@[#[trigger] spec_xy_idx(x, y)] == TileType::Wall
    }

    /// True when `chosen` accounts for the random wall scatter of `self`: a
    /// finite set of at most `SCATTER_COUNT` interior cells, never the
    /// starting cell, such that every interior cell outside it is still
    /// floor.
    pub open spec fn scatter_ok(self, chosen: Set<int>) -> bool {
        &&& chosen.finite()
        &&& chosen.len() <= SCATTER_COUNT
        &&& forall|i: int|
            #[trigger] chosen.contains(i) ==> 0 <= i < grid_len() && !is_border(i) && i
                != self.player_position
        &&& forall|i: int|
            0 <= i < grid_len() && !is_border(i) && !chosen.contains(i)
                ==> #[trigger] self.map@[i] == TileType::Floor
    }

    /// The set of interior cells of `self` that are walls.
    pub open spec fn interior_walls(self) -> Set<int> {
        Set::new(|i: int| 0 <= i < grid_len() && !is_border(i) && self.map@[i] == TileType::Wall)
    }

    /// The scatter is bounded: whenever a chosen set accounts for it, every
    /// interior wall lies in that set, so at most `SCATTER_COUNT` interior
    /// cells are walls.
    pub proof fn lemma_interior_walls_bounded(self, chosen: Set<int>)
        requires
            self.scatter_ok(chosen),
        ensures
            self.interior_walls().finite(),
            self.interior_walls().len() <= SCATTER_COUNT,
    {
        assert forall|i: int| self.interior_walls().contains(i) implies chosen.contains(i) by {
            if !chosen.contains(i) {
                assert(self.map@[i] == TileType::Floor);
            }
        }
        vstd::set_lib::lemma_len_subset(self.interior_walls(), chosen);
    }

    /// The glyph drawn for the cell with index `i`: the cell's precomputed
    /// decorative variant, chosen by its kind.
    pub open spec fn spec_glyph(self, i: int) -> int {
        if self.map@[i] == TileType::Floor {
            self.floor_glyphs@[i] as int
        } else {
            self.wall_glyphs@[i] as int
        }
    }

    /// The foreground brightness drawn for the cell with index `i`, in
    /// thousandths: distance-shaded when the cell is visible, the fixed
    /// dim tone otherwise.
    pub open spec fn spec_fg(self, i: int, dim_milli: int) -> int {
        if self.visible@[i] {
            spec_intensity(
                dist2(
                    spec_idx_x(i),
                    spec_idx_y(i),
                    spec_idx_x(self.player_position as int),
                    spec_idx_y(self.player_position as int),
                ),
            )
        } else {
            dim_milli
        }
    }

    /// The draw command for the cell with index `i` is correct.
    pub open spec fn cmd_ok(self, dim_milli: int, i: int, c: DrawCommand) -> bool {
        &&& c.x == spec_idx_x(i)
        &&& c.y == spec_idx_y(i)
        &&& c.glyph == self.spec_glyph(i)
        &&& c.fg_milli == self.spec_fg(i, dim_milli)
    }

    /// Generates the map: a bordered room of floor, ringed by walls, with a
    /// fixed number of uniformly random interior cells turned into walls —
    /// except the starting cell, which is left floor no matter how the
    /// random draws fall. Also draws, once, the decorative glyph variant of
    /// every cell. No connectivity is promised: rooms may come out
    /// disconnected, and the player may be boxed in.
    pub fn new() -> (state: State)
        ensures
            state.wf(),
            state.player_position == spec_xy_idx(WIDTH as int / 2, HEIGHT as int / 2),
            state.map@[state.player_position as int] == TileType::Floor,
            state.border_walled(),
            exists|chosen: Set<int>| #[trigger] state.scatter_ok(chosen),
            forall|i: int| 0 <= i < grid_len() ==> 519 <= #[trigger] state.floor_glyphs@[i] <= 522,
            forall|i: int| 0 <= i < grid_len() ==> 206 <= #[trigger] state.wall_glyphs@[i] <= 207,
            forall|i: int| 0 <= i < grid_len() ==> !(#[trigger] state.visible@[i]),
    {
        let mut rng = rng_new();
        let n: usize = (WIDTH as usize) * (HEIGHT as usize);

        let mut floor_glyphs: Vec<i32> = Vec::new();
        while floor_glyphs.len() < n
            invariant
                floor_glyphs@.len() <= n == grid_len(),
                forall|j: int|
                    0 <= j < floor_glyphs@.len() ==> 519 <= #[trigger] floor_glyphs@[j] <= 522,
            decreases n - floor_glyphs@.len(),
        {
            let roll = rng_roll_dice(&mut rng, 1, 4);
            floor_glyphs.push(roll - 1 + 519);
        }

        let mut wall_glyphs: Vec<i32> = Vec::new();
        while wall_glyphs.len() < n
            invariant
                wall_glyphs@.len() <= n == grid_len(),
                forall|j: int|
                    0 <= j < wall_glyphs@.len() ==> 206 <= #[trigger] wall_glyphs@[j] <= 207,
            decreases n - wall_glyphs@.len(),
        {
            let roll = rng_roll_dice(&mut rng, 1, 2);
            wall_glyphs.push(roll - 1 + 206);
        }

        let mut visible: Vec<bool> = Vec::new();
        while visible.len() < n
            invariant
                visible@.len() <= n == grid_len(),
                forall|j: int| 0 <= j < visible@.len() ==> !(#[trigger] visible@[j]),
            decreases n - visible@.len(),
        {
            visible.push(false);
        }

        // The room: walls on the border ring, floor everywhere inside.
        let mut map: Vec<TileType> = Vec::new();
        let mut i: usize = 0;
        while i < n
            invariant
                i == map@.len() <= n == grid_len(),
                forall|j: int|
                    0 <= j < i ==> #[trigger] map@[j] == (if is_border(j) {
                        TileType::Wall
                    } else {
                        TileType::Floor
                    }),
            decreases n - i,
        {
            let (x, y) = idx_xy(i);
            if x == 0 || x == WIDTH - 1 || y == 0 || y == HEIGHT - 1 {
                map.push(TileType::Wall);
            } else {
                map.push(TileType::Floor);
            }
            i += 1;
        }

        let player_position = xy_idx(WIDTH / 2, HEIGHT / 2);
        proof {
            lemma_index_round_trip(WIDTH as int / 2, HEIGHT as int / 2);
        }

        // The scatter: random interior cells become walls, but never the
        // starting cell. The ghost set gathers the cells chosen so far, to
        // witness that the scatter stays within its fixed count.
        let ghost mut chosen: Set<int> = Set::empty();
        let mut k: u32 = 0;
        while k < SCATTER_COUNT
            invariant
                map@.len() == grid_len(),
                player_position == spec_xy_idx(WIDTH as int / 2, HEIGHT as int / 2),
                player_position < grid_len(),
                map@[player_position as int] == TileType::Floor,
                forall|j: int|
                    0 <= j < grid_len() && is_border(j) ==> #[trigger] map@[j] == TileType::Wall,
                k <= SCATTER_COUNT,
                chosen.finite(),
                chosen.len() <= k,
                forall|i: int|
                    #[trigger] chosen.contains(i) ==> 0 <= i < grid_len() && !is_border(i) && i
                        != player_position,
                forall|i: int|
                    0 <= i < grid_len() && !is_border(i) && !chosen.contains(i)
                        ==> #[trigger] map@[i] == TileType::Floor,
            decreases SCATTER_COUNT - k,
        {
            let x = rng_range(&mut rng, 1, WIDTH - 1);
            let y = rng_range(&mut rng, 1, HEIGHT - 1);
            scatter_cell(&mut map, player_position, x, y);
            proof {
                lemma_index_round_trip(x as int, y as int);
                let idx = spec_xy_idx(x as int, y as int);
                if idx != player_position {
                    vstd::set::axiom_set_insert_len(chosen, idx);
                    chosen = chosen.insert(idx);
                }
            }
            k += 1;
        }

        let state = State { map, player_position, visible, floor_glyphs, wall_glyphs };
        proof {
            assert(state.scatter_ok(chosen));
            assert forall|x: int, y: int|
                in_bounds(x, y) && (x == 0 || x == WIDTH - 1 || y == 0 || y == HEIGHT - 1)
                    implies state.map@[#[trigger] spec_xy_idx(x, y)] == TileType::Wall by {
                lemma_index_round_trip(x, y);
            }
        }
        state
    }

    /// The opacity predicate of the visibility policy: a cell blocks sight
    /// exactly when it is a wall.
    pub fn is_opaque(&self, idx: usize) -> (r: bool)
        requires
            self.wf(),
            idx < grid_len(),
        ensures
            r == (self.map@[idx as int] == TileType::Wall),
    {
        self.map[idx] == TileType::Wall
    }

    /// Width and height of the map, for the collaborators that walk it.
    pub fn dimensions(&self) -> (d: (i32, i32))
        ensures
            d.0 == WIDTH,
            d.1 == HEIGHT,
    {
        (WIDTH, HEIGHT)
    }

    /// Installs the visibility set of the current frame from the points the
    /// line-of-sight collaborator handed back: the old set is cleared, each
    /// in-bounds point marks its cell, points off the map are dropped, and
    /// the observer's own cell is always marked. So the set is exactly the
    /// in-bounds points plus the observer, and never reaches outside the
    /// grid, whatever the collaborator returned.
    pub fn compute_visible(&mut self, fov: &Vec<(i32, i32)>)
        requires
            old(self).wf(),
        ensures
            final(self).wf(),
            final(self).map@ == old(self).map@,
            final(self).player_position == old(self).player_position,
            final(self).floor_glyphs@ == old(self).floor_glyphs@,
            final(self).wall_glyphs@ == old(self).wall_glyphs@,
            final(self).visible@[old(self).player_position as int],
            forall|i: int|
                0 <= i < grid_len()
                    ==> (#[trigger] final(self).visible@[i] <==> (i == old(self).player_position
                    || fov_marks(fov@, i))),
    {
        let n = self.visible.len();
        let mut i: usize = 0;
        while i < n
            invariant
                self.wf(),
                n == grid_len(),
                self.map@ == old(self).map@,
                self.player_position == old(self).player_position,
                self.floor_glyphs@ == old(self).floor_glyphs@,
                self.wall_glyphs@ == old(self).wall_glyphs@,
                i <= n,
                forall|j: int| 0 <= j < i ==> !(#[trigger] self.visible@[j]),
            decreases n - i,
        {
            self.visible[i] = false;
            i += 1;
        }

        let m = fov.len();
        let mut k: usize = 0;
        while k < m
            invariant
                self.wf(),
                m == fov@.len(),
                self.map@ == old(self).map@,
                self.player_position == old(self).player_position,
                self.floor_glyphs@ == old(self).floor_glyphs@,
                self.wall_glyphs@ == old(self).wall_glyphs@,
                k <= m,
                forall|i: int|
                    0 <= i < grid_len() ==> (#[trigger] self.visible@[i] <==> fov_marks_upto(
                        fov@,
                        k as int,
                        i,
                    )),
            decreases m - k,
        {
            let p = fov[k];
            let ghost prev = self.visible@;
            if p.0 >= 0 && p.0 < WIDTH && p.1 >= 0 && p.1 < HEIGHT {
                let idx = xy_idx(p.0, p.1);
                self.visible[idx] = true;
                proof {
                    assert(marks_cell(fov@[k as int], idx as int));
                    assert forall|i: int|
                        0 <= i < grid_len() implies (self.visible@[i] <==> fov_marks_upto(
                        fov@,
                        k + 1,
                        i,
                    )) by {
                        if i == idx {
                            assert(fov_marks_upto(fov@, k + 1, i));
                        } else {
                            assert(self.visible@[i] == prev[i]);
                            if fov_marks_upto(fov@, k + 1, i) {
                                let j = choose|j: int|
                                    0 <= j < k + 1 && #[trigger] marks_cell(fov@[j], i);
                                if j < k {
                                    assert(fov_marks_upto(fov@, k as int, i));
                                }
                            }
                        }
                    }
                }
            } else {
                proof {
                    assert forall|i: int|
                        0 <= i < grid_len() implies (self.visible@[i] <==> fov_marks_upto(
                        fov@,
                        k + 1,
                        i,
                    )) by {
                        if fov_marks_upto(fov@, k + 1, i) {
                            let j = choose|j: int|
                                0 <= j < k + 1 && #[trigger] marks_cell(fov@[j], i);
                            if j < k {
                                assert(fov_marks_upto(fov@, k as int, i));
                            }
                        }
                    }
                }
            }
            k += 1;
        }

        let p = self.player_position;
        self.visible[p] = true;
    }

    /// One draw command per cell, in row-major order: the cell's glyph and
    /// its brightness — distance-shaded when visible, the caller's dim tone
    /// (in thousandths) when not.
    pub fn draw_commands(&self, dim_milli: i32) -> (cmds: Vec<DrawCommand>)
        requires
            self.wf(),
            0 <= dim_milli <= INTENSITY_FULL,
        ensures
            cmds@.len() == grid_len(),
            forall|i: int|
                0 <= i < grid_len() ==> self.cmd_ok(dim_milli as int, i, #[trigger] cmds@[i]),
    {
        let (px, py) = idx_xy(self.player_position);
        let n = self.map.len();
        let mut cmds: Vec<DrawCommand> = Vec::new();
        let mut i: usize = 0;
        while i < n
            invariant
                self.wf(),
                n == grid_len(),
                i == cmds@.len() <= n,
                px == spec_idx_x(self.player_position as int),
                py == spec_idx_y(self.player_position as int),
                in_bounds(px as int, py as int),
                forall|j: int|
                    0 <= j < i ==> self.cmd_ok(dim_milli as int, j, #[trigger] cmds@[j]),
            decreases n - i,
        {
            let (x, y) = idx_xy(i);
            let glyph = match self.map[i] {
                TileType::Floor => self.floor_glyphs[i],
                TileType::Wall => self.wall_glyphs[i],
            };
            let fg_milli = if self.visible[i] {
                intensity_milli(x, y, px, py)
            } else {
                dim_milli
            };
            cmds.push(DrawCommand { x, y, glyph, fg_milli });
            i += 1;
        }
        cmds
    }

    /// The discrete move: the target cell, one integer delta away, is taken
    /// exactly when it is floor; a wall leaves the player where they stand,
    /// silently. So the player can never occupy a wall cell. Callers pass a
    /// target that lies on the map; there is no error path.
    pub fn move_player(&mut self, delta_x: i32, delta_y: i32)
        requires
            old(self).wf(),
            in_bounds(
                spec_idx_x(old(self).player_position as int) + delta_x,
                spec_idx_y(old(self).player_position as int) + delta_y,
            ),
        ensures
            final(self).wf(),
            final(self).map@ == old(self).map@,
            final(self).visible@ == old(self).visible@,
            final(self).floor_glyphs@ == old(self).floor_glyphs@,
            final(self).wall_glyphs@ == old(self).wall_glyphs@,
            ({
                let t = spec_xy_idx(
                    spec_idx_x(old(self).player_position as int) + delta_x,
                    spec_idx_y(old(self).player_position as int) + delta_y,
                );
                if old(self).map@[t] == TileType::Floor {
                    final(self).player_position == t
                } else {
                    final(self).player_position == old(self).player_position
                }
            }),
    {
        let (cx, cy) = idx_xy(self.player_position);
        let new_idx = xy_idx(cx + delta_x, cy + delta_y);
        if self.map[new_idx] == TileType::Floor {
            self.player_position = new_idx;
        }
    }
}

} // verus!
