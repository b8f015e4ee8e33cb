//! Platforms and the spacing rules that a level layout obeys.

use vstd::prelude::*;
use crate::units::{
    abs, distance, within_limit, LIMIT, PLATFORM_HEIGHT, WINDOW_HEIGHT, WINDOW_WIDTH,
};

verus! {

/// Centre of the starting platform, horizontally.
pub const START_X: i64 = 0;

/// Centre of the starting platform, vertically (100 world units).
pub const START_Y: i64 = 1_000_000;

/// Width of the starting platform (200 world units).
pub const START_WIDTH: i64 = 2_000_000;

/// Room that the player needs between two platforms on one level: its own
/// width and 30 world units more.
pub const MIN_GAP_FOR_PLAYER: i64 = 800_000;

/// Vertical gap from which two platforms may overlap horizontally
/// (60 world units).
pub const MIN_VERTICAL_GAP: i64 = 600_000;

/// Least distance between the centres of two platforms (80 world units).
pub const MIN_PLATFORM_DISTANCE: i64 = 800_000;

/// Horizontal reach of the area kept free around the start (120 world units).
pub const START_CLEARANCE_X: i64 = 1_200_000;

/// Vertical reach of the area kept free around the start (70 world units).
pub const START_CLEARANCE_Y: i64 = 700_000;

/// Margin kept between a platform's end and the window's side
/// (50 world units).
pub const EDGE_MARGIN_X: i64 = 500_000;

/// Margin kept between a platform's centre and the window's top and bottom
/// (100 world units).
pub const EDGE_MARGIN_Y: i64 = 1_000_000;

/// A platform: a rectangle of fixed height, given by its centre and width.
#[derive(Clone, Copy, Debug, PartialEq, Eq, Structural)]
pub struct Platform {
    pub x: i64,
    pub y: i64,
    pub width: i64,
}

/// The platform under the player's spawn point, part of every layout.
pub open spec fn starting_platform() -> Platform {
    Platform { x: START_X, y: START_Y, width: START_WIDTH }
}

/// Rule (a): the two platforms are closer horizontally than half of each
/// width plus the room the player needs, and closer vertically than the
/// minimum vertical gap.
pub open spec fn crowding(a: Platform, b: Platform) -> bool {
    &&& 2 * abs(a.x - b.x) < a.width + b.width + 2 * MIN_GAP_FOR_PLAYER
    &&& abs(a.y - b.y) < MIN_VERTICAL_GAP
}

/// Rule (b): the centres are closer than the minimum distance, measured in
/// the plane.
#[verifier::opaque]
pub open spec fn too_near(a: Platform, b: Platform) -> bool {
    (a.x - b.x) * (a.x - b.x) + (a.y - b.y) * (a.y - b.y) < MIN_PLATFORM_DISTANCE
        * MIN_PLATFORM_DISTANCE
}

/// Two platforms that may not stand in one layout: rule (a) or rule (b).
pub open spec fn conflicts(a: Platform, b: Platform) -> bool {
    crowding(a, b) || too_near(a, b)
}

/// Rule (c): the platform's centre lies in the area kept free around the
/// starting platform's anchor.
pub open spec fn near_start(p: Platform) -> bool {
    abs(p.x as int) < START_CLEARANCE_X && abs(p.y - START_Y) < START_CLEARANCE_Y
}

/// Rule (d): the platform reaches into the side margin of the window, or its
/// centre into the top or bottom margin.
pub open spec fn out_of_bounds(p: Platform) -> bool {
    ||| 2 * abs(p.x as int) > WINDOW_WIDTH - p.width - 2 * EDGE_MARGIN_X
    ||| 2 * abs(p.y as int) > WINDOW_HEIGHT - 2 * EDGE_MARGIN_Y
}

/// Whether `candidate` may join the platforms in `placed`: it conflicts with
/// none of them, keeps off the start and stays within the window.
pub open spec fn acceptable(candidate: Platform, placed: Seq<Platform>) -> bool {
    &&& forall|i: int| 0 <= i < placed.len() ==> !conflicts(candidate, #[trigger] placed[i])
    &&& !near_start(candidate)
    &&& !out_of_bounds(candidate)
}

/// No two platforms of the layout conflict.
pub open spec fn well_spaced(platforms: Seq<Platform>) -> bool {
    forall|i: int, j: int|
        0 <= i < platforms.len() && 0 <= j < platforms.len() && i != j ==> !conflicts(
            #[trigger] platforms[i],
            #[trigger] platforms[j],
        )
}

/// Every platform but the first keeps off the start and within the window.
pub open spec fn fairly_placed(platforms: Seq<Platform>) -> bool {
    forall|i: int|
        1 <= i < platforms.len() ==> !near_start(#[trigger] platforms[i]) && !out_of_bounds(
            platforms[i],
        )
}

/// Every platform of the sequence is within the limits of the arithmetic.
pub open spec fn all_in_range(platforms: Seq<Platform>) -> bool {
    forall|i: int| 0 <= i < platforms.len() ==> (#[trigger] platforms[i]).in_range()
}

/// Conflict is mutual: the spacing rules do not depend on which platform
/// came first.
pub proof fn lemma_conflicts_symmetric(a: Platform, b: Platform)
    ensures
        conflicts(a, b) == conflicts(b, a),
{
    reveal(too_near);
    assert((a.x - b.x) * (a.x - b.x) == (b.x - a.x) * (b.x - a.x)) by (nonlinear_arith);
    assert((a.y - b.y) * (a.y - b.y) == (b.y - a.y) * (b.y - a.y)) by (nonlinear_arith);
}

/// A square is at least the square of any smaller magnitude.
pub proof fn lemma_square_grows(d: int, bound: int)
    requires
        0 <= bound <= d,
    ensures
        bound * bound <= d * d,
{
    assert(bound * bound <= d * d) by (nonlinear_arith)
        requires
            0 <= bound <= d,
    ;
}

/// Tests `all_in_range`.
pub fn all_within_range(platforms: &Vec<Platform>) -> (r: bool)
    ensures
        r == all_in_range(platforms@),
{
    let mut i: usize = 0;
    while i < platforms.len()
        invariant
            i <= platforms.len(),
            forall|k: int| 0 <= k < i ==> (#[trigger] platforms@[k]).in_range(),
        decreases platforms.len() - i,
    {
        if !platforms[i].is_in_range() {
            return false;
        }
        i = i + 1;
    }
    true
}

impl Platform {
    /// Within the limits of the arithmetic: centre and width no larger in
    /// magnitude than `LIMIT`, width not negative.
    pub open spec fn in_range(self) -> bool {
        &&& within_limit(self.x as int)
        &&& within_limit(self.y as int)
        &&& 0 <= self.width <= LIMIT
    }

    /// The starting platform.
    pub fn starting() -> (p: Platform)
        ensures
            p == starting_platform(),
    {
        Platform { x: START_X, y: START_Y, width: START_WIDTH }
    }

    /// Height of the platform, the same for all.
    pub fn height(&self) -> (h: i64)
        ensures
            h == PLATFORM_HEIGHT,
    {
        PLATFORM_HEIGHT
    }

    /// Tests `in_range`.
    pub fn is_in_range(&self) -> (r: bool)
        ensures
            r == self.in_range(),
    {
        -LIMIT <= self.x && self.x <= LIMIT && -LIMIT <= self.y && self.y <= LIMIT && 0
            <= self.width && self.width <= LIMIT
    }

    /// Tests rules (a) and (b) against another platform.
    pub fn conflicts_with(&self, other: &Platform) -> (r: bool)
        requires
            self.in_range(),
            other.in_range(),
        ensures
            r == conflicts(*self, *other),
    {
        let dx: i64 = distance(self.x, other.x);
        let dy: i64 = distance(self.y, other.y);
        proof {
            reveal(too_near);
            assert(dx * dx == (self.x - other.x) * (self.x - other.x)) by (nonlinear_arith)
                requires
                    dx == abs(self.x - other.x),
            ;
            assert(dy * dy == (self.y - other.y) * (self.y - other.y)) by (nonlinear_arith)
                requires
                    dy == abs(self.y - other.y),
            ;
            if dx >= MIN_PLATFORM_DISTANCE {
                lemma_square_grows(dx as int, MIN_PLATFORM_DISTANCE as int);
                lemma_square_grows(dy as int, 0);
            }
            if dy >= MIN_PLATFORM_DISTANCE {
                lemma_square_grows(dy as int, MIN_PLATFORM_DISTANCE as int);
                lemma_square_grows(dx as int, 0);
            }
        }
        if 2 * dx < self.width + other.width + 2 * MIN_GAP_FOR_PLAYER && dy < MIN_VERTICAL_GAP {
            return true;
        }
        if dx >= MIN_PLATFORM_DISTANCE || dy >= MIN_PLATFORM_DISTANCE {
            return false;
        }
        assert(dx * dx <= 800_000 * 800_000) by (nonlinear_arith)
            requires
                0 <= dx < 800_000,
        ;
        assert(dy * dy <= 800_000 * 800_000) by (nonlinear_arith)
            requires
                0 <= dy < 800_000,
        ;
        dx * dx + dy * dy < MIN_PLATFORM_DISTANCE * MIN_PLATFORM_DISTANCE
    }

    /// Tests rule (c).
    pub fn is_near_start(&self) -> (r: bool)
        requires
            self.in_range(),
        ensures
            r == near_start(*self),
    {
        distance(self.x, 0) < START_CLEARANCE_X && distance(self.y, START_Y) < START_CLEARANCE_Y
    }

    /// Tests rule (d).
    pub fn is_out_of_bounds(&self) -> (r: bool)
        requires
            self.in_range(),
        ensures
            r == out_of_bounds(*self),
    {
        2 * distance(self.x, 0) > WINDOW_WIDTH - self.width - 2 * EDGE_MARGIN_X || 2 * distance(
            self.y,
            0,
        ) > WINDOW_HEIGHT - 2 * EDGE_MARGIN_Y
    }

    /// Tests whether the platform may join `placed`.
    pub fn fits_among(&self, placed: &Vec<Platform>) -> (r: bool)
        requires
            self.in_range(),
            all_in_range(placed@),
        ensures
            r == acceptable(*self, placed@),
    {
        let mut i: usize = 0;
        while i < placed.len()
            invariant
                i <= placed.len(),
                self.in_range(),
                all_in_range(placed@),
                forall|k: int| 0 <= k < i ==> !conflicts(*self, #[trigger] placed@[k]),
            decreases placed.len() - i,
        {
            if self.conflicts_with(&placed[i]) {
                return false;
            }
            i = i + 1;
        }
        !self.is_near_start() && !self.is_out_of_bounds()
    }
}

} // verus!
