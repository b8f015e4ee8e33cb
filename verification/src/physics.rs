//! Player physics: steering, gravity, motion and collision resolution.
//!
//! One time step runs, in this order: steering from the input (and the jump
//! impulse), gravity, motion, collision resolution against every platform,
//! and the clamp to the window's sides.

use vstd::prelude::*;
use crate::platform::{all_in_range, Platform};
use crate::units::{
    within_limit, AIR_CONTROL_PERMILLE, FAR_LIMIT, GRAVITY, JUMP_SPEED, LIMIT, MICROS_PER_SECOND,
    PLATFORM_HALF_HEIGHT, PLAYER_HALF, PLAYER_SPEED, WINDOW_WIDTH,
};

verus! {

/// Band around a platform's upper edge within which a player that does not
/// rise counts as standing (5 world units).
pub const GROUNDED_TOLERANCE: i64 = 50_000;

/// Where the player appears, horizontally.
pub const SPAWN_X: i64 = 0;

/// Where the player appears, vertically (200 world units).
pub const SPAWN_Y: i64 = 2_000_000;

/// The player: centre, velocity, and whether it stood on a platform at the
/// end of the last time step.
#[derive(Clone, Copy, Debug, PartialEq, Eq, Structural)]
pub struct Player {
    pub x: i64,
    pub y: i64,
    pub vx: i64,
    pub vy: i64,
    pub grounded: bool,
}

/// The input of one time step.
#[derive(Clone, Copy, Debug, PartialEq, Eq, Structural)]
pub struct Input {
    /// The key for moving left is down.
    pub move_left: bool,
    /// The key for moving right is down.
    pub move_right: bool,
    /// The jump key went down since the last time step.
    pub jump_just_pressed: bool,
}

/// The player as it appears: at the spawn point, at rest, airborne.
pub open spec fn spawned() -> Player {
    Player { x: SPAWN_X, y: SPAWN_Y, vx: 0, vy: 0, grounded: false }
}

/// Direction asked for: -1 for left, 1 for right, 0 for neither or both.
pub open spec fn direction(input: Input) -> int {
    (if input.move_right {
        1int
    } else {
        0int
    }) - (if input.move_left {
        1int
    } else {
        0int
    })
}

/// Horizontal speed under full input: all of `PLAYER_SPEED` on the ground,
/// the share `AIR_CONTROL_PERMILLE` of it in the air.
pub open spec fn control_speed(grounded: bool) -> int {
    if grounded {
        PLAYER_SPEED as int
    } else {
        PLAYER_SPEED * AIR_CONTROL_PERMILLE / 1000
    }
}

/// The player after steering: the horizontal velocity follows the input, and
/// the vertical velocity becomes `JUMP_SPEED` where the jump key just went
/// down while the player is grounded.
pub open spec fn steered(p: Player, input: Input) -> Player {
    Player {
        x: p.x,
        y: p.y,
        vx: (direction(input) * control_speed(p.grounded)) as i64,
        vy: if input.jump_just_pressed && p.grounded {
            JUMP_SPEED
        } else {
            p.vy
        },
        grounded: p.grounded,
    }
}

/// Change that a rate per second makes in `dt_micros` microseconds, rounded
/// toward zero to a whole sub-unit.
pub open spec fn over_time(rate: int, dt_micros: int) -> int {
    if rate >= 0 {
        rate * dt_micros / (MICROS_PER_SECOND as int)
    } else {
        -((-rate) * dt_micros / (MICROS_PER_SECOND as int))
    }
}

/// The player after gravity has acted for `dt_micros` microseconds.
pub open spec fn fallen(p: Player, dt_micros: int) -> Player {
    Player {
        x: p.x,
        y: p.y,
        vx: p.vx,
        vy: (p.vy - over_time(GRAVITY as int, dt_micros)) as i64,
        grounded: p.grounded,
    }
}

/// The player after moving with its velocity for `dt_micros` microseconds.
pub open spec fn moved(p: Player, dt_micros: int) -> Player {
    Player {
        x: (p.x + over_time(p.vx as int, dt_micros)) as i64,
        y: (p.y + over_time(p.vy as int, dt_micros)) as i64,
        vx: p.vx,
        vy: p.vy,
        grounded: p.grounded,
    }
}

/// Left edge of a platform; half the width is rounded down to a whole
/// sub-unit.
pub open spec fn left_edge(plat: Platform) -> int {
    plat.x - plat.width / 2
}

/// Right edge of a platform.
pub open spec fn right_edge(plat: Platform) -> int {
    plat.x + plat.width / 2
}

/// Upper edge of a platform.
pub open spec fn top_edge(plat: Platform) -> int {
    plat.y + PLATFORM_HALF_HEIGHT
}

/// Lower edge of a platform.
pub open spec fn bottom_edge(plat: Platform) -> int {
    plat.y - PLATFORM_HALF_HEIGHT
}

/// The player's box and the platform's share a horizontal stretch.
pub open spec fn overlaps_x(p: Player, plat: Platform) -> bool {
    p.x + PLAYER_HALF > left_edge(plat) && p.x - PLAYER_HALF < right_edge(plat)
}

/// The player's box and the platform's share an area.
pub open spec fn overlaps(p: Player, plat: Platform) -> bool {
    &&& overlaps_x(p, plat)
    &&& p.y + PLAYER_HALF > bottom_edge(plat)
    &&& p.y - PLAYER_HALF < top_edge(plat)
}

/// The smaller of two integers.
pub open spec fn least(a: int, b: int) -> int {
    if a < b {
        a
    } else {
        b
    }
}

/// Depth of the overlap along the horizontal axis.
pub open spec fn overlap_x(p: Player, plat: Platform) -> int {
    least(p.x + PLAYER_HALF - left_edge(plat), right_edge(plat) - (p.x - PLAYER_HALF))
}

/// Depth of the overlap along the vertical axis.
pub open spec fn overlap_y(p: Player, plat: Platform) -> int {
    least(p.y + PLAYER_HALF - bottom_edge(plat), top_edge(plat) - (p.y - PLAYER_HALF))
}

/// The player's lower edge is within the tolerance band around the
/// platform's upper edge, above a stretch of the platform.
pub open spec fn stands_near(p: Player, plat: Platform) -> bool {
    &&& overlaps_x(p, plat)
    &&& p.y - PLAYER_HALF <= top_edge(plat) + GROUNDED_TOLERANCE
    &&& p.y - PLAYER_HALF >= top_edge(plat) - GROUNDED_TOLERANCE
}

/// The player pushed out of one platform. Without overlap nothing changes.
/// Otherwise the push goes along the axis of the smaller overlap, the
/// vertical one on a tie. A horizontal push moves the player beside the
/// platform and stops its horizontal motion. A vertical push moves a player
/// whose centre is below the platform's centre under it and stops its
/// vertical motion; any other player is put on top, keeps a rising velocity,
/// loses a falling one, and is grounded.
pub open spec fn pushed_out(p: Player, plat: Platform) -> Player {
    if !overlaps(p, plat) {
        p
    } else if overlap_x(p, plat) < overlap_y(p, plat) {
        Player {
            x: (if p.x < plat.x {
                left_edge(plat) - PLAYER_HALF
            } else {
                right_edge(plat) + PLAYER_HALF
            }) as i64,
            y: p.y,
            vx: 0,
            vy: p.vy,
            grounded: p.grounded,
        }
    } else if p.y < plat.y {
        Player {
            x: p.x,
            y: (bottom_edge(plat) - PLAYER_HALF) as i64,
            vx: p.vx,
            vy: 0,
            grounded: p.grounded,
        }
    } else {
        Player {
            x: p.x,
            y: (top_edge(plat) + PLAYER_HALF) as i64,
            vx: p.vx,
            vy: if p.vy <= 0 {
                0
            } else {
                p.vy
            },
            grounded: true,
        }
    }
}

/// The player after one platform: pushed out of it, and grounded as well
/// where it stood near the platform's top before the push and does not rise
/// after it.
pub open spec fn resolved_against(p: Player, plat: Platform) -> Player {
    let q = pushed_out(p, plat);
    Player {
        x: q.x,
        y: q.y,
        vx: q.vx,
        vy: q.vy,
        grounded: q.grounded || (stands_near(p, plat) && q.vy <= 0),
    }
}

/// The player after the first `n` platforms, taken in order; it starts
/// airborne.
pub open spec fn resolved_through(p: Player, platforms: Seq<Platform>, n: nat) -> Player
    decreases n,
{
    if n == 0 {
        Player { x: p.x, y: p.y, vx: p.vx, vy: p.vy, grounded: false }
    } else {
        resolved_against(resolved_through(p, platforms, (n - 1) as nat), platforms[n - 1])
    }
}

/// The player kept between the window's sides.
pub open spec fn clamped(p: Player) -> Player {
    Player {
        x: if p.x < -(WINDOW_WIDTH / 2) + PLAYER_HALF {
            (-(WINDOW_WIDTH / 2) + PLAYER_HALF) as i64
        } else if p.x > WINDOW_WIDTH / 2 - PLAYER_HALF {
            (WINDOW_WIDTH / 2 - PLAYER_HALF) as i64
        } else {
            p.x
        },
        y: p.y,
        vx: p.vx,
        vy: p.vy,
        grounded: p.grounded,
    }
}

/// The player after collision resolution against all platforms and the
/// clamp to the window.
pub open spec fn resolved(p: Player, platforms: Seq<Platform>) -> Player {
    clamped(resolved_through(p, platforms, platforms.len()))
}

/// The player after one whole time step.
pub open spec fn stepped(p: Player, input: Input, dt_micros: int, platforms: Seq<Platform>) -> Player {
    resolved(moved(fallen(steered(p, input), dt_micros), dt_micros), platforms)
}

/// Computes `over_time`.
pub fn scale_by_time(rate: i64, dt_micros: u32) -> (change: i64)
    requires
        -2 * LIMIT <= rate <= 2 * LIMIT,
    ensures
        change == over_time(rate as int, dt_micros as int),
        -10_000 * LIMIT <= change <= 10_000 * LIMIT,
        rate >= 0 ==> change >= 0,
        rate <= 0 ==> change <= 0,
{
    let magnitude: u128 = if rate < 0 {
        (-rate) as u128
    } else {
        rate as u128
    };
    assert(magnitude * dt_micros <= 2_000_000_000_000 * 0x1_0000_0000) by (nonlinear_arith)
        requires
            0 <= magnitude <= 2_000_000_000_000,
            0 <= dt_micros < 0x1_0000_0000,
    ;
    assert(rate == 0 ==> magnitude * dt_micros == 0) by (nonlinear_arith)
        requires
            rate == 0 ==> magnitude == 0,
    ;
    let scaled: u128 = magnitude * (dt_micros as u128) / (MICROS_PER_SECOND as u128);
    let change: i64 = scaled as i64;
    if rate < 0 {
        -change
    } else {
        change
    }
}

impl Player {
    /// Position and velocity are within `LIMIT`.
    pub open spec fn in_range(self) -> bool {
        &&& within_limit(self.x as int)
        &&& within_limit(self.y as int)
        &&& within_limit(self.vx as int)
        &&& within_limit(self.vy as int)
    }

    /// The position is within `FAR_LIMIT`.
    pub open spec fn within_reach(self) -> bool {
        &&& -FAR_LIMIT <= self.x <= FAR_LIMIT
        &&& -FAR_LIMIT <= self.y <= FAR_LIMIT
    }

    /// Tests `in_range`.
    pub fn is_in_range(&self) -> (r: bool)
        ensures
            r == self.in_range(),
    {
        -LIMIT <= self.x && self.x <= LIMIT && -LIMIT <= self.y && self.y <= LIMIT && -LIMIT
            <= self.vx && self.vx <= LIMIT && -LIMIT <= self.vy && self.vy <= LIMIT
    }

    /// The player as it appears.
    pub fn spawn() -> (p: Player)
        ensures
            p == spawned(),
            p.in_range(),
    {
        Player { x: SPAWN_X, y: SPAWN_Y, vx: 0, vy: 0, grounded: false }
    }

    /// Steers the player. It jumps only where the jump key just went down
    /// while it is grounded; otherwise its vertical velocity is kept.
    pub fn steer(&self, input: &Input) -> (p: Player)
        ensures
            p == steered(*self, *input),
            p.vy != self.vy ==> input.jump_just_pressed && self.grounded,
            -PLAYER_SPEED <= p.vx <= PLAYER_SPEED,
    {
        let speed: i64 = if self.grounded {
            PLAYER_SPEED
        } else {
            PLAYER_SPEED * AIR_CONTROL_PERMILLE / 1000
        };
        let mut vx: i64 = 0;
        if input.move_left {
            vx = vx - speed;
        }
        if input.move_right {
            vx = vx + speed;
        }
        let vy: i64 = if input.jump_just_pressed && self.grounded {
            JUMP_SPEED
        } else {
            self.vy
        };
        assert(vx == direction(*input) * control_speed(self.grounded)) by {
            assert(speed == control_speed(self.grounded));
            assert(1 * speed == speed && 0 * speed == 0 && (-1) * speed == -speed);
        }
        Player { x: self.x, y: self.y, vx, vy, grounded: self.grounded }
    }

    /// Lets gravity act for `dt_micros` microseconds.
    pub fn apply_gravity(&self, dt_micros: u32) -> (p: Player)
        requires
            within_limit(self.vy as int),
        ensures
            p == fallen(*self, dt_micros as int),
            self.vy - LIMIT <= p.vy <= self.vy,
    {
        let drop: i64 = scale_by_time(GRAVITY, dt_micros);
        assert(drop <= LIMIT) by {
            assert(GRAVITY * dt_micros / 1_000_000 <= LIMIT) by (nonlinear_arith)
                requires
                    0 <= dt_micros < 0x1_0000_0000,
            ;
        }
        Player { x: self.x, y: self.y, vx: self.vx, vy: self.vy - drop, grounded: self.grounded }
    }

    /// Moves the player with its velocity for `dt_micros` microseconds.
    pub fn apply_velocity(&self, dt_micros: u32) -> (p: Player)
        requires
            within_limit(self.x as int),
            within_limit(self.y as int),
            -2 * LIMIT <= self.vx <= 2 * LIMIT,
            -2 * LIMIT <= self.vy <= 2 * LIMIT,
        ensures
            p == moved(*self, dt_micros as int),
            p.within_reach(),
    {
        let dx: i64 = scale_by_time(self.vx, dt_micros);
        let dy: i64 = scale_by_time(self.vy, dt_micros);
        Player {
            x: self.x + dx,
            y: self.y + dy,
            vx: self.vx,
            vy: self.vy,
            grounded: self.grounded,
        }
    }

    /// Resolves the collision with one platform.
    pub fn resolve_platform(&self, plat: &Platform) -> (p: Player)
        requires
            self.within_reach(),
            plat.in_range(),
        ensures
            p == resolved_against(*self, *plat),
            p.within_reach(),
    {
        let player_left: i64 = self.x - PLAYER_HALF;
        let player_right: i64 = self.x + PLAYER_HALF;
        let player_bottom: i64 = self.y - PLAYER_HALF;
        let player_top: i64 = self.y + PLAYER_HALF;
        let half_width: i64 = plat.width / 2;
        let platform_left: i64 = plat.x - half_width;
        let platform_right: i64 = plat.x + half_width;
        let platform_bottom: i64 = plat.y - PLATFORM_HALF_HEIGHT;
        let platform_top: i64 = plat.y + PLATFORM_HALF_HEIGHT;
        let mut p: Player = *self;
        let beside: bool = player_right > platform_left && player_left < platform_right;
        if beside && player_top > platform_bottom && player_bottom < platform_top {
            let from_left: i64 = player_right - platform_left;
            let from_right: i64 = platform_right - player_left;
            let from_below: i64 = player_top - platform_bottom;
            let from_above: i64 = platform_top - player_bottom;
            let overlap_x: i64 = if from_left < from_right {
                from_left
            } else {
                from_right
            };
            let overlap_y: i64 = if from_below < from_above {
                from_below
            } else {
                from_above
            };
            if overlap_x < overlap_y {
                if self.x < plat.x {
                    p.x = platform_left - PLAYER_HALF;
                } else {
                    p.x = platform_right + PLAYER_HALF;
                }
                p.vx = 0;
            } else if self.y < plat.y {
                p.y = platform_bottom - PLAYER_HALF;
                p.vy = 0;
            } else {
                p.y = platform_top + PLAYER_HALF;
                if p.vy <= 0 {
                    p.vy = 0;
                }
                p.grounded = true;
            }
        }
        if beside && player_bottom <= platform_top + GROUNDED_TOLERANCE && player_bottom
            >= platform_top - GROUNDED_TOLERANCE && p.vy <= 0 {
            p.grounded = true;
        }
        p
    }

    /// Resolves the collisions with all platforms in order, starting
    /// airborne, then keeps the player between the window's sides.
    pub fn resolve_collisions(&self, platforms: &Vec<Platform>) -> (p: Player)
        requires
            self.within_reach(),
            all_in_range(platforms@),
        ensures
            p == resolved(*self, platforms@),
            p.within_reach(),
            -(WINDOW_WIDTH / 2) + PLAYER_HALF <= p.x <= WINDOW_WIDTH / 2 - PLAYER_HALF,
    {
        let mut p: Player = Player {
            x: self.x,
            y: self.y,
            vx: self.vx,
            vy: self.vy,
            grounded: false,
        };
        let mut i: usize = 0;
        while i < platforms.len()
            invariant
                i <= platforms.len(),
                all_in_range(platforms@),
                p.within_reach(),
                p == resolved_through(*self, platforms@, i as nat),
            decreases platforms.len() - i,
        {
            p = p.resolve_platform(&platforms[i]);
            i = i + 1;
        }
        let half_width: i64 = WINDOW_WIDTH / 2;
        if p.x < -half_width + PLAYER_HALF {
            p.x = -half_width + PLAYER_HALF;
        } else if p.x > half_width - PLAYER_HALF {
            p.x = half_width - PLAYER_HALF;
        }
        p
    }

    /// Runs one whole time step: steering, gravity, motion, collisions.
    pub fn step(&self, input: &Input, dt_micros: u32, platforms: &Vec<Platform>) -> (p: Player)
        requires
            self.in_range(),
            all_in_range(platforms@),
        ensures
            p == stepped(*self, *input, dt_micros as int, platforms@),
            p.within_reach(),
            -(WINDOW_WIDTH / 2) + PLAYER_HALF <= p.x <= WINDOW_WIDTH / 2 - PLAYER_HALF,
    {
        let steered = self.steer(input);
        let fallen = steered.apply_gravity(dt_micros);
        let moved = fallen.apply_velocity(dt_micros);
        moved.resolve_collisions(platforms)
    }
}

/// A platform carries the player: the player's lower edge lies on the
/// platform's upper edge, and the platform reaches under its whole width.
pub open spec fn supported_by(p: Player, plat: Platform) -> bool {
    &&& p.y - PLAYER_HALF == top_edge(plat)
    &&& left_edge(plat) <= p.x - PLAYER_HALF
    &&& p.x + PLAYER_HALF <= right_edge(plat)
}

/// The player is between the window's sides.
pub open spec fn inside_window(p: Player) -> bool {
    -(WINDOW_WIDTH / 2) + PLAYER_HALF <= p.x <= WINDOW_WIDTH / 2 - PLAYER_HALF
}

/// A player at rest that no platform reaches into keeps its position and
/// velocity through any number of platforms, and is grounded once the
/// platform that carries it has had its turn.
proof fn lemma_rest_through(p: Player, platforms: Seq<Platform>, k: int, n: nat)
    requires
        p.vx == 0,
        p.vy == 0,
        0 <= k < platforms.len(),
        n <= platforms.len(),
        supported_by(p, platforms[k]),
        forall|i: int| 0 <= i < platforms.len() ==> !overlaps(p, #[trigger] platforms[i]),
    ensures
        resolved_through(p, platforms, n).x == p.x,
        resolved_through(p, platforms, n).y == p.y,
        resolved_through(p, platforms, n).vx == 0,
        resolved_through(p, platforms, n).vy == 0,
        n > k ==> resolved_through(p, platforms, n).grounded,
    decreases n,
{
    if n > 0 {
        lemma_rest_through(p, platforms, k, (n - 1) as nat);
        let before = resolved_through(p, platforms, (n - 1) as nat);
        let plat = platforms[n - 1];
        assert(!overlaps(p, plat));
        assert(overlaps(before, plat) == overlaps(p, plat));
        assert(stands_near(before, plat) == stands_near(p, plat));
    }
}

/// Collision resolution leaves a player at rest as it is. A player with no
/// velocity, carried by one of the platforms, between the window's sides,
/// into which no platform reaches, comes out at the same position, still
/// without velocity, and grounded.
pub proof fn lemma_rest_is_stable(p: Player, platforms: Seq<Platform>, k: int)
    requires
        p.vx == 0,
        p.vy == 0,
        0 <= k < platforms.len(),
        supported_by(p, platforms[k]),
        inside_window(p),
        forall|i: int| 0 <= i < platforms.len() ==> !overlaps(p, #[trigger] platforms[i]),
    ensures
        resolved(p, platforms) == (Player { x: p.x, y: p.y, vx: 0, vy: 0, grounded: true }),
{
    lemma_rest_through(p, platforms, k, platforms.len());
}

/// Resolving twice at rest gives what resolving once gives.
pub proof fn lemma_rest_is_idempotent(p: Player, platforms: Seq<Platform>, k: int)
    requires
        p.vx == 0,
        p.vy == 0,
        0 <= k < platforms.len(),
        supported_by(p, platforms[k]),
        inside_window(p),
        forall|i: int| 0 <= i < platforms.len() ==> !overlaps(p, #[trigger] platforms[i]),
    ensures
        resolved(resolved(p, platforms), platforms) == resolved(p, platforms),
{
    lemma_rest_is_stable(p, platforms, k);
    let once = resolved(p, platforms);
    lemma_rest_is_stable(once, platforms, k);
}

/// The player with another grounded flag.
pub open spec fn with_grounded(p: Player, grounded: bool) -> Player {
    Player { x: p.x, y: p.y, vx: p.vx, vy: p.vy, grounded }
}

/// The grounded flag does not last from one resolution to the next: what
/// comes out of collision resolution does not depend on the flag that went
/// in, and without platforms the player comes out airborne.
pub proof fn lemma_grounded_is_not_sticky(p: Player, platforms: Seq<Platform>, grounded: bool)
    ensures
        resolved(with_grounded(p, grounded), platforms) == resolved(p, platforms),
        platforms.len() == 0 ==> !resolved(p, platforms).grounded,
{
    lemma_flag_is_dropped(p, platforms, grounded, platforms.len());
}

/// Resolution through any number of platforms starts airborne, whatever
/// the flag was.
proof fn lemma_flag_is_dropped(p: Player, platforms: Seq<Platform>, grounded: bool, n: nat)
    ensures
        resolved_through(with_grounded(p, grounded), platforms, n) == resolved_through(
            p,
            platforms,
            n,
        ),
    decreases n,
{
    if n > 0 {
        lemma_flag_is_dropped(p, platforms, grounded, (n - 1) as nat);
    }
}

/// Landing: a player that does not rise and is pushed out of a platform
/// upward ends on the platform's top with no vertical velocity, grounded,
/// and keeps its horizontal position and velocity.
pub proof fn lemma_landing(p: Player, plat: Platform)
    requires
        p.within_reach(),
        plat.in_range(),
        overlaps(p, plat),
        overlap_x(p, plat) >= overlap_y(p, plat),
        p.y >= plat.y,
        p.vy <= 0,
    ensures
        resolved_against(p, plat).vy == 0,
        resolved_against(p, plat).grounded,
        resolved_against(p, plat).y == top_edge(plat) + PLAYER_HALF,
        resolved_against(p, plat).x == p.x,
        resolved_against(p, plat).vx == p.vx,
{
}

/// Hitting the underside: a player pushed out of a platform downward ends
/// under the platform with no vertical velocity, and is grounded only if it
/// was before.
pub proof fn lemma_hit_from_below(p: Player, plat: Platform)
    requires
        p.within_reach(),
        plat.in_range(),
        overlaps(p, plat),
        overlap_x(p, plat) >= overlap_y(p, plat),
        p.y < plat.y,
    ensures
        resolved_against(p, plat).vy == 0,
        resolved_against(p, plat).grounded == p.grounded,
        resolved_against(p, plat).y == bottom_edge(plat) - PLAYER_HALF,
        resolved_against(p, plat).x == p.x,
        resolved_against(p, plat).vx == p.vx,
{
}

/// The jump impulse needs both the ground and a fresh press of the key:
/// with both the vertical velocity becomes `JUMP_SPEED`, without either it
/// stays what it was.
pub proof fn lemma_jump_needs_ground_and_press(p: Player, input: Input)
    ensures
        input.jump_just_pressed && p.grounded ==> steered(p, input).vy == JUMP_SPEED,
        !(input.jump_just_pressed && p.grounded) ==> steered(p, input).vy == p.vy,
{
}

} // verus!
