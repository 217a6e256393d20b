//! The continuous player controller of the sprite demos: a raw directional
//! input in {-1, 0, 1}² is normalized to unit length, scaled by a fixed
//! speed and the elapsed frame time, and added to the player's integer
//! position. All of it is carried in thousandths of a unit, so the
//! normalization and the truncating integration can be stated exactly
//! without floating point.
use vstd::prelude::*;

verus! {

/// The player's speed, in units per second.
pub const PLAYER_SPEED: i32 = 100;

/// A thousand times 1/sqrt(2), rounded down: the magnitude of each
/// component of a normalized diagonal step, in thousandths.
pub const DIAGONAL_MILLI: i32 = 707;

/// A sprite-demo player: a position in pixels.
pub struct Player {
    pub x: i32,
    pub y: i32,
}

/// Division that rounds toward zero, as casting a float to an integer does.
pub open spec fn div_trunc(a: int, b: int) -> int {
    if a >= 0 {
        a / b
    } else {
        -((-a) / b)
    }
}

/// One component of the normalized direction, in thousandths: zero input
/// stays zero; a lone axis keeps full length; a diagonal is scaled down to
/// 1/sqrt(2) per axis.
pub open spec fn spec_norm_milli(d: int, other: int) -> int {
    if d == 0 {
        0
    } else if other == 0 {
        d * 1000
    } else {
        d * DIAGONAL_MILLI
    }
}

/// Where one axis of the position lands: the normalized component (in
/// thousandths) scaled by the speed and the frame time in seconds is added
/// to the position, and the sum is truncated back to whole units.
pub open spec fn spec_step(p: int, n_milli: int, ft_ms: int) -> int {
    div_trunc(p * 1000 + div_trunc(n_milli * PLAYER_SPEED * ft_ms, 1000), 1000)
}

/// The horizontal direction that the key snapshot yields; when both keys
/// are held, right wins.
pub open spec fn spec_dir_x(left: bool, right: bool) -> int {
    if right {
        1
    } else if left {
        -1
    } else {
        0
    }
}

/// The vertical direction that the key snapshot yields; when both keys are
/// held, down wins. Up is negative, as screen coordinates grow downward.
pub open spec fn spec_dir_y(up: bool, down: bool) -> int {
    if down {
        1
    } else if up {
        -1
    } else {
        0
    }
}

/// Unsigned division by a constant, split by sign so that it truncates
/// toward zero as the specification does.
fn div_trunc_1000(a: i64) -> (r: i64)
    requires
        -0x4000000000000000 <= a <= 0x4000000000000000,
    ensures
        r == div_trunc(a as int, 1000),
        a >= 0 ==> 0 <= r <= a,
        a < 0 ==> a <= r <= 0,
{
    if a >= 0 {
        let q = ((a as u64) / 1000) as i64;
        proof {
            assert(q * 1000 <= a < q * 1000 + 1000) by (nonlinear_arith)
                requires
                    q == (a as u64) / 1000,
                    0 <= a <= 0x4000000000000000,
            ;
        }
        q
    } else {
        let m = (-a) as u64;
        let q = (m / 1000) as i64;
        proof {
            assert(q * 1000 <= m < q * 1000 + 1000) by (nonlinear_arith)
                requires
                    q == m / 1000,
                    0 < m <= 0x4000000000000000,
            ;
        }
        -q
    }
}

/// Moves one axis by a normalized component of `n_milli` thousandths over
/// `ft_ms` milliseconds.
fn step_axis(p: i32, n_milli: i32, ft_ms: u32) -> (r: i32)
    requires
        -1000 <= n_milli <= 1000,
        -16777216 <= p <= 16777216,
    ensures
        r == spec_step(p as int, n_milli as int, ft_ms as int),
{
    let per_second: i64 = (n_milli as i64) * 100;
    assert(per_second == n_milli * PLAYER_SPEED);
    assert(-500000000000000 <= per_second * ft_ms <= 500000000000000) by (nonlinear_arith)
        requires
            -100000 <= per_second <= 100000,
            0 <= ft_ms <= 4294967295,
    ;
    let scaled: i64 = per_second * (ft_ms as i64);
    assert(scaled == (n_milli as int) * PLAYER_SPEED * ft_ms) by (nonlinear_arith)
        requires
            scaled == per_second * ft_ms,
            per_second == n_milli * PLAYER_SPEED,
            PLAYER_SPEED == 100,
    ;
    let delta = div_trunc_1000(scaled);
    let sum: i64 = (p as i64) * 1000 + delta;
    let q = div_trunc_1000(sum);
    q as i32
}

/// The continuous move: normalizes the direction (dx, dy), whose components
/// are each -1, 0 or 1, to unit length, scales it by the fixed speed and
/// the elapsed frame time, and adds it to the player's position, truncating
/// to whole units. Positions are bounded to two to the twenty-fourth — the
/// range in which single-precision pixel coordinates stay integer-exact,
/// and far inside what the integer arithmetic below can carry; any frame
/// time the type can hold is accepted.
pub fn try_move_player(dx: i32, dy: i32, player: &mut Player, frame_time_ms: u32)
    requires
        -1 <= dx <= 1,
        -1 <= dy <= 1,
        -16777216 <= old(player).x <= 16777216,
        -16777216 <= old(player).y <= 16777216,
    ensures
        final(player).x == spec_step(
            old(player).x as int,
            spec_norm_milli(dx as int, dy as int),
            frame_time_ms as int,
        ),
        final(player).y == spec_step(
            old(player).y as int,
            spec_norm_milli(dy as int, dx as int),
            frame_time_ms as int,
        ),
{
    let nx: i32 = if dx == 0 {
        0
    } else if dy == 0 {
        dx * 1000
    } else {
        dx * DIAGONAL_MILLI
    };
    let ny: i32 = if dy == 0 {
        0
    } else if dx == 0 {
        dy * 1000
    } else {
        dy * DIAGONAL_MILLI
    };
    player.x = step_axis(player.x, nx, frame_time_ms);
    player.y = step_axis(player.y, ny, frame_time_ms);
}

/// Turns a keyboard snapshot — whether each arrow key is held — into a
/// direction and performs the continuous move with it. The position bounds
/// are those of the continuous move.
pub fn player_input(
    up: bool,
    down: bool,
    left: bool,
    right: bool,
    player: &mut Player,
    frame_time_ms: u32,
)
    requires
        -16777216 <= old(player).x <= 16777216,
        -16777216 <= old(player).y <= 16777216,
    ensures
        final(player).x == spec_step(
            old(player).x as int,
            spec_norm_milli(spec_dir_x(left, right), spec_dir_y(up, down)),
            frame_time_ms as int,
        ),
        final(player).y == spec_step(
            old(player).y as int,
            spec_norm_milli(spec_dir_y(up, down), spec_dir_x(left, right)),
            frame_time_ms as int,
        ),
{
    let mut dx: i32 = 0;
    let mut dy: i32 = 0;
    if up {
        dy = -1;
    }
    if down {
        dy = 1;
    }
    if left {
        dx = -1;
    }
    if right {
        dx = 1;
    }
    try_move_player(dx, dy, player, frame_time_ms);
}

} // verus!
