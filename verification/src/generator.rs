//! The level generator: from a seed to a layout of platforms.
//!
//! The generator draws a target count of six to ten platforms, then samples
//! candidates and keeps each one that obeys the spacing rules against all
//! platforms kept so far. It gives up after ten attempts per wanted
//! platform, so a layout may hold fewer platforms than its target.

use vstd::prelude::*;
use crate::platform::{
    acceptable, all_in_range, conflicts, fairly_placed, lemma_conflicts_symmetric, near_start,
    out_of_bounds, starting_platform, well_spaced, Platform,
};
use crate::rng::{lcg_next, lcg_step, Lcg, LCG_MODULUS};
use crate::units::{WINDOW_HEIGHT, WINDOW_WIDTH};

verus! {

/// Fewest platforms wanted beyond the starting platform.
pub const MIN_EXTRA_PLATFORMS: u64 = 6;

/// Number of different target counts.
pub const EXTRA_PLATFORM_SPREAD: u64 = 5;

/// Attempts allowed per wanted platform.
pub const ATTEMPTS_PER_PLATFORM: usize = 10;

/// Number of values of one draw; a draw is a generator state modulo this.
pub const DRAW_RANGE: u64 = 1000;

/// Width of the narrowest platform (120 world units).
pub const MIN_WIDTH: i64 = 1_200_000;

/// Width that no sampled platform reaches (220 world units).
pub const MAX_WIDTH: i64 = 2_200_000;

/// Width gained per unit of the width draw: the widths span 100 world
/// units over the draw's range.
pub const WIDTH_STEP: i64 = 1000;

/// Part of the window's width that the horizontal range leaves out beside
/// the platform's own width (100 world units).
pub const SIDE_RESERVE: i64 = 1_000_000;

/// Part of the window's height that the vertical range leaves out
/// (150 world units).
pub const VERTICAL_RESERVE: i64 = 1_500_000;

/// The platform sampled from three draws, each in `0..1000`: a width in
/// `[MIN_WIDTH, MAX_WIDTH)`, and a centre at the fraction `draw / 1000 - 1/2`
/// of the horizontal range `WINDOW_WIDTH - width - SIDE_RESERVE` and of the
/// vertical range `WINDOW_HEIGHT - VERTICAL_RESERVE`.
pub open spec fn candidate(width_draw: int, x_draw: int, y_draw: int) -> Platform {
    let width = MIN_WIDTH + width_draw * WIDTH_STEP;
    let x_step = (WINDOW_WIDTH - width - SIDE_RESERVE) / (DRAW_RANGE as int);
    let y_step = (WINDOW_HEIGHT - VERTICAL_RESERVE) / (DRAW_RANGE as int);
    Platform {
        x: ((x_draw - DRAW_RANGE / 2) * x_step) as i64,
        y: ((y_draw - DRAW_RANGE / 2) * y_step) as i64,
        width: width as i64,
    }
}

/// Number of platforms that the layout of `seed` aims at beyond the starting
/// platform: six plus the first state modulo five.
pub open spec fn target_count(seed: u64) -> nat {
    (MIN_EXTRA_PLATFORMS + lcg_next(seed as int) % (EXTRA_PLATFORM_SPREAD as int)) as nat
}

/// A layout as the contracts speak of it: the platforms in the order in
/// which they were placed, and the generator state after the last draw.
pub ghost struct Layout {
    pub platforms: Seq<Platform>,
    pub rng_state: int,
}

/// The layout reached from `placed` and generator state `state` with
/// `attempts` attempts left: while platforms are missing, each attempt takes
/// three states, samples a candidate from them and keeps it if acceptable.
pub open spec fn place_from(placed: Seq<Platform>, state: int, target: nat, attempts: nat) -> Layout
    decreases attempts,
{
    if placed.len() >= target + 1 || attempts == 0 {
        Layout { platforms: placed, rng_state: state }
    } else {
        let s1 = lcg_next(state);
        let s2 = lcg_next(s1);
        let s3 = lcg_next(s2);
        let c = candidate(
            s1 % (DRAW_RANGE as int),
            s2 % (DRAW_RANGE as int),
            s3 % (DRAW_RANGE as int),
        );
        let next = if acceptable(c, placed) {
            placed.push(c)
        } else {
            placed
        };
        place_from(next, s3, target, (attempts - 1) as nat)
    }
}

/// The layout of a seed.
pub open spec fn layout(seed: u64) -> Layout {
    place_from(
        seq![starting_platform()],
        lcg_next(seed as int),
        target_count(seed),
        target_count(seed) * ATTEMPTS_PER_PLATFORM as nat,
    )
}

/// Every width lies in `[MIN_WIDTH, MAX_WIDTH)`.
pub open spec fn widths_in_span(platforms: Seq<Platform>) -> bool {
    forall|i: int|
        0 <= i < platforms.len() ==> MIN_WIDTH <= (#[trigger] platforms[i]).width < MAX_WIDTH
}

/// What holds of every layout: it begins with the starting platform, no two
/// of its platforms conflict, every platform but the first keeps off the
/// start and within the window, and all widths and coordinates are in
/// their spans.
pub open spec fn obeys_rules(platforms: Seq<Platform>) -> bool {
    &&& platforms.len() >= 1
    &&& platforms[0] == starting_platform()
    &&& well_spaced(platforms)
    &&& fairly_placed(platforms)
    &&& widths_in_span(platforms)
    &&& all_in_range(platforms)
}

/// A candidate of three draws has a width in its span and a centre no
/// further than 500 world units from the origin on either axis.
pub proof fn lemma_candidate_bounds(width_draw: int, x_draw: int, y_draw: int)
    requires
        0 <= width_draw < DRAW_RANGE,
        0 <= x_draw < DRAW_RANGE,
        0 <= y_draw < DRAW_RANGE,
    ensures
        MIN_WIDTH <= candidate(width_draw, x_draw, y_draw).width < MAX_WIDTH,
        -5_000_000 <= candidate(width_draw, x_draw, y_draw).x <= 5_000_000,
        -5_000_000 <= candidate(width_draw, x_draw, y_draw).y <= 5_000_000,
        candidate(width_draw, x_draw, y_draw).in_range(),
{
    let width = MIN_WIDTH + width_draw * WIDTH_STEP;
    let x_step = (WINDOW_WIDTH - width - SIDE_RESERVE) / (DRAW_RANGE as int);
    let y_step = (WINDOW_HEIGHT - VERTICAL_RESERVE) / (DRAW_RANGE as int);
    let x_part = x_draw - DRAW_RANGE / 2;
    let y_part = y_draw - DRAW_RANGE / 2;
    assert(-5_000_000 <= x_part * x_step <= 5_000_000) by (nonlinear_arith)
        requires
            -500 <= x_part < 500,
            0 <= x_step <= 10_000,
    ;
    assert(-5_000_000 <= y_part * y_step <= 5_000_000) by (nonlinear_arith)
        requires
            -500 <= y_part < 500,
            0 <= y_step <= 10_000,
    ;
}

/// Placing from a layout that obeys the rules ends in one that does, with
/// no more platforms than the target allows.
proof fn lemma_place_from_obeys_rules(
    placed: Seq<Platform>,
    state: int,
    target: nat,
    attempts: nat,
)
    requires
        obeys_rules(placed),
        placed.len() <= target + 1,
    ensures
        obeys_rules(place_from(placed, state, target, attempts).platforms),
        place_from(placed, state, target, attempts).platforms.len() <= target + 1,
    decreases attempts,
{
    if placed.len() < target + 1 && attempts > 0 {
        let s1 = lcg_next(state);
        let s2 = lcg_next(s1);
        let s3 = lcg_next(s2);
        let c = candidate(
            s1 % (DRAW_RANGE as int),
            s2 % (DRAW_RANGE as int),
            s3 % (DRAW_RANGE as int),
        );
        lemma_candidate_bounds(
            s1 % (DRAW_RANGE as int),
            s2 % (DRAW_RANGE as int),
            s3 % (DRAW_RANGE as int),
        );
        if acceptable(c, placed) {
            lemma_push_keeps_rules(placed, c);
            lemma_place_from_obeys_rules(placed.push(c), s3, target, (attempts - 1) as nat);
        } else {
            lemma_place_from_obeys_rules(placed, s3, target, (attempts - 1) as nat);
        }
    }
}

/// The layout of every seed obeys the rules and holds at most its target
/// count of platforms beside the starting platform; the target is six to
/// ten.
pub proof fn lemma_layout_obeys_rules(seed: u64)
    ensures
        obeys_rules(layout(seed).platforms),
        layout(seed).platforms.len() <= target_count(seed) + 1,
        MIN_EXTRA_PLATFORMS <= target_count(seed) < MIN_EXTRA_PLATFORMS + EXTRA_PLATFORM_SPREAD,
{
    let start = seq![starting_platform()];
    assert(obeys_rules(start));
    lemma_place_from_obeys_rules(
        start,
        lcg_next(seed as int),
        target_count(seed),
        target_count(seed) * ATTEMPTS_PER_PLATFORM as nat,
    );
}

/// Builds the candidate of three draws.
pub fn make_candidate(width_draw: u64, x_draw: u64, y_draw: u64) -> (c: Platform)
    requires
        width_draw < DRAW_RANGE,
        x_draw < DRAW_RANGE,
        y_draw < DRAW_RANGE,
    ensures
        c == candidate(width_draw as int, x_draw as int, y_draw as int),
        c.in_range(),
        MIN_WIDTH <= c.width < MAX_WIDTH,
{
    let width: i64 = MIN_WIDTH + (width_draw as i64) * WIDTH_STEP;
    let x_step: i64 = (WINDOW_WIDTH - width - SIDE_RESERVE) / (DRAW_RANGE as i64);
    let y_step: i64 = (WINDOW_HEIGHT - VERTICAL_RESERVE) / (DRAW_RANGE as i64);
    let x_part: i64 = x_draw as i64 - (DRAW_RANGE / 2) as i64;
    let y_part: i64 = y_draw as i64 - (DRAW_RANGE / 2) as i64;
    proof {
        lemma_candidate_bounds(width_draw as int, x_draw as int, y_draw as int);
        assert(-5_000_000 <= x_part * x_step <= 5_000_000) by (nonlinear_arith)
            requires
                -500 <= x_part < 500,
                0 <= x_step <= 10_000,
        ;
        assert(-5_000_000 <= y_part * y_step <= 5_000_000) by (nonlinear_arith)
            requires
                -500 <= y_part < 500,
                0 <= y_step <= 10_000,
        ;
    }
    Platform { x: x_part * x_step, y: y_part * y_step, width }
}

/// What [`generate`] returns.
#[derive(Debug)]
pub struct Generated {
    /// The platforms in the order in which they were placed, the starting
    /// platform first.
    pub platforms: Vec<Platform>,
    /// The generator state after the last draw.
    pub final_rng_state: u64,
}

/// Fills a layout: samples candidates from the generator state `state` on
/// and adds each acceptable one to `placed`, until the layout holds `target`
/// platforms beside the first or `attempts` candidates have been tried. An
/// exhausted budget is no failure: the layout then holds fewer platforms.
pub fn fill_layout(placed: Vec<Platform>, state: u64, target: usize, attempts: usize) -> (level:
    Generated)
    requires
        all_in_range(placed@),
        target < usize::MAX,
    ensures
        level.platforms@ == place_from(placed@, state as int, target as nat, attempts as nat).platforms,
        level.final_rng_state == place_from(
            placed@,
            state as int,
            target as nat,
            attempts as nat,
        ).rng_state,
        all_in_range(level.platforms@),
        obeys_rules(placed@) ==> obeys_rules(level.platforms@),
        placed@.len() <= level.platforms@.len() <= placed@.len() + attempts,
        placed@.len() <= target + 1 ==> level.platforms@.len() <= target + 1,
        state < LCG_MODULUS ==> level.final_rng_state < LCG_MODULUS,
{
    let ghost start = placed@;
    let mut rng = Lcg::new(state);
    let mut platforms = placed;
    let mut tried: usize = 0;
    while platforms.len() < target + 1 && tried < attempts
        invariant
            target < usize::MAX,
            tried <= attempts,
            all_in_range(platforms@),
            obeys_rules(start) ==> obeys_rules(platforms@),
            start.len() <= platforms@.len() <= start.len() + tried,
            start.len() <= target + 1 ==> platforms@.len() <= target + 1,
            state < LCG_MODULUS ==> rng.state < LCG_MODULUS,
            place_from(platforms@, rng.state as int, target as nat, (attempts - tried) as nat)
                == place_from(start, state as int, target as nat, attempts as nat),
        decreases attempts - tried,
    {
        let ghost old_state = rng.state;
        tried = tried + 1;
        let width_draw: u64 = rng.next() % DRAW_RANGE;
        let x_draw: u64 = rng.next() % DRAW_RANGE;
        let y_draw: u64 = rng.next() % DRAW_RANGE;
        let c = make_candidate(width_draw, x_draw, y_draw);
        proof {
            lemma_place_step(
                platforms@,
                old_state as int,
                target as nat,
                (attempts - tried + 1) as nat,
            );
        }
        if c.fits_among(&platforms) {
            proof {
                if obeys_rules(platforms@) {
                    lemma_push_keeps_rules(platforms@, c);
                }
                lemma_push_keeps_range(platforms@, c);
            }
            platforms.push(c);
        }
    }
    Generated { platforms, final_rng_state: rng.state }
}

/// Generates the layout of `seed`.
///
/// The result is a function of the seed alone. It begins with the starting
/// platform, holds at most the target count of further platforms, and obeys
/// the spacing rules: no two platforms conflict, and every platform but the
/// first keeps off the start and within the window.
pub fn generate(seed: u64) -> (level: Generated)
    ensures
        level.platforms@ == layout(seed).platforms,
        level.final_rng_state == layout(seed).rng_state,
        level.final_rng_state < LCG_MODULUS,
        level.platforms@[0] == starting_platform(),
        1 <= level.platforms@.len() <= target_count(seed) + 1,
        MIN_EXTRA_PLATFORMS <= target_count(seed) < MIN_EXTRA_PLATFORMS + EXTRA_PLATFORM_SPREAD,
        obeys_rules(level.platforms@),
{
    let first: u64 = lcg_step(seed);
    let target: usize = (MIN_EXTRA_PLATFORMS + first % EXTRA_PLATFORM_SPREAD) as usize;
    let mut placed: Vec<Platform> = Vec::new();
    placed.push(Platform::starting());
    assert(placed@ =~= seq![starting_platform()]);
    fill_layout(placed, first, target, target * ATTEMPTS_PER_PLATFORM)
}

/// Platforms within the limits stay so once another such platform joins.
proof fn lemma_push_keeps_range(placed: Seq<Platform>, c: Platform)
    requires
        all_in_range(placed),
        c.in_range(),
    ensures
        all_in_range(placed.push(c)),
{
    let after = placed.push(c);
    assert forall|i: int| 0 <= i < after.len() implies (#[trigger] after[i]).in_range() by {
        if i < placed.len() {
            assert(after[i] == placed[i]);
        }
    }
}

/// One attempt of the generator, as `place_from` unfolds it.
proof fn lemma_place_step(placed: Seq<Platform>, state: int, target: nat, attempts: nat)
    requires
        placed.len() < target + 1,
        attempts > 0,
    ensures
        ({
            let s1 = lcg_next(state);
            let s2 = lcg_next(s1);
            let s3 = lcg_next(s2);
            let c = candidate(
                s1 % (DRAW_RANGE as int),
                s2 % (DRAW_RANGE as int),
                s3 % (DRAW_RANGE as int),
            );
            place_from(placed, state, target, attempts) == place_from(
                if acceptable(c, placed) {
                    placed.push(c)
                } else {
                    placed
                },
                s3,
                target,
                (attempts - 1) as nat,
            )
        }),
{
}

/// A layout that obeys the rules still does once an acceptable candidate
/// has joined it.
proof fn lemma_push_keeps_rules(placed: Seq<Platform>, c: Platform)
    requires
        obeys_rules(placed),
        acceptable(c, placed),
        c.in_range(),
        MIN_WIDTH <= c.width < MAX_WIDTH,
    ensures
        obeys_rules(placed.push(c)),
{
    let after = placed.push(c);
    assert forall|i: int, j: int|
        0 <= i < after.len() && 0 <= j < after.len() && i != j implies !conflicts(
        #[trigger] after[i],
        #[trigger] after[j],
    ) by {
        if i < placed.len() && j < placed.len() {
            assert(after[i] == placed[i] && after[j] == placed[j]);
        } else if i < placed.len() {
            assert(after[i] == placed[i]);
            lemma_conflicts_symmetric(after[i], c);
        } else {
            assert(after[j] == placed[j]);
        }
    }
    assert forall|i: int| 1 <= i < after.len() implies !near_start(#[trigger] after[i])
        && !out_of_bounds(after[i]) by {
        if i < placed.len() {
            assert(after[i] == placed[i]);
        }
    }
    assert forall|i: int| 0 <= i < after.len() implies MIN_WIDTH <= (#[trigger] after[i]).width
        < MAX_WIDTH by {
        if i < placed.len() {
            assert(after[i] == placed[i]);
        }
    }
    assert forall|i: int| 0 <= i < after.len() implies (#[trigger] after[i]).in_range() by {
        if i < placed.len() {
            assert(after[i] == placed[i]);
        }
    }
}

} // verus!
