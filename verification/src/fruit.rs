//! Fruit placement: one fruit per layout, resting on a platform other than
//! the starting one.

use vstd::prelude::*;
use crate::platform::{all_in_range, Platform, START_Y};
use crate::rng::{lcg_next, lcg_step_wide};
use crate::units::{FRUIT_HALF, PLATFORM_HALF_HEIGHT};

verus! {

/// Factor by which the seed is spread before the one generator step that
/// picks the platform.
pub const FRUIT_SEED_FACTOR: u64 = 73;

/// A point of the plane.
#[derive(Clone, Copy, Debug, PartialEq, Eq, Structural)]
pub struct Position {
    pub x: i64,
    pub y: i64,
}

/// Whether a platform may carry the fruit: every platform but those at the
/// height of the starting platform.
pub open spec fn may_carry_fruit(p: Platform) -> bool {
    p.y != START_Y
}

/// `may_carry_fruit` as a predicate to filter by.
pub open spec fn carrier() -> spec_fn(Platform) -> bool {
    |p: Platform| may_carry_fruit(p)
}

/// The platforms that may carry the fruit, in their order.
pub open spec fn fruit_candidates(platforms: Seq<Platform>) -> Seq<Platform> {
    platforms.filter(carrier())
}

/// The place of the chosen platform among `count` candidates: the state
/// that follows `seed * 73`, modulo the count.
pub open spec fn fruit_index(seed: u64, count: int) -> int {
    lcg_next(seed * FRUIT_SEED_FACTOR) % count
}

/// Where the fruit rests on a platform: centred, its lower edge on the
/// platform's upper edge.
pub open spec fn fruit_on(p: Platform) -> Position {
    Position { x: p.x, y: (p.y + PLATFORM_HALF_HEIGHT + FRUIT_HALF) as i64 }
}

/// The fruit of a layout and a seed: none where no platform may carry it,
/// else on the chosen candidate.
pub open spec fn fruit_spot(platforms: Seq<Platform>, seed: u64) -> Option<Position> {
    let candidates = fruit_candidates(platforms);
    if candidates.len() == 0 {
        None
    } else {
        Some(fruit_on(candidates[fruit_index(seed, candidates.len() as int)]))
    }
}

/// The candidates among the first `n + 1` platforms are those among the
/// first `n`, and the platform at `n` if it may carry the fruit.
proof fn lemma_candidates_step(platforms: Seq<Platform>, n: int)
    requires
        0 <= n < platforms.len(),
    ensures
        fruit_candidates(platforms.take(n + 1)) == if may_carry_fruit(platforms[n]) {
            fruit_candidates(platforms.take(n)).push(platforms[n])
        } else {
            fruit_candidates(platforms.take(n))
        },
{
    reveal(Seq::filter);
    assert(platforms.take(n + 1).drop_last() =~= platforms.take(n));
    assert(platforms.take(n + 1).last() == platforms[n]);
}

/// The fruit never rests on a platform at the starting platform's height:
/// where there is a fruit, it rests on a platform of the layout that may
/// carry it, and there is none exactly where no platform may. In
/// particular a layout without platforms has no fruit.
pub proof fn lemma_fruit_rests_on_carrier(platforms: Seq<Platform>, seed: u64)
    ensures
        fruit_spot(platforms, seed) is None <==> forall|i: int|
            0 <= i < platforms.len() ==> !may_carry_fruit(#[trigger] platforms[i]),
        fruit_spot(platforms, seed) is Some ==> exists|i: int|
            0 <= i < platforms.len() && may_carry_fruit(#[trigger] platforms[i]) && fruit_spot(
                platforms,
                seed,
            ) == Some(fruit_on(platforms[i])),
        platforms.len() == 0 ==> fruit_spot(platforms, seed) is None,
{
    let candidates = fruit_candidates(platforms);
    if candidates.len() > 0 {
        let index = fruit_index(seed, candidates.len() as int);
        let chosen = candidates[index];
        platforms.lemma_filter_pred(carrier(), index);
        assert(candidates.contains(chosen));
        platforms.lemma_filter_contains_rev(carrier(), chosen);
        let i = choose|i: int| 0 <= i < platforms.len() && platforms[i] == chosen;
        assert(may_carry_fruit(platforms[i]));
    } else {
        assert forall|i: int| 0 <= i < platforms.len() implies !may_carry_fruit(
            #[trigger] platforms[i],
        ) by {
            if may_carry_fruit(platforms[i]) {
                platforms.lemma_filter_contains(carrier(), i);
            }
        }
    }
}

/// Collects the platforms that may carry the fruit.
pub fn collect_candidates(platforms: &Vec<Platform>) -> (candidates: Vec<Platform>)
    ensures
        candidates@ == fruit_candidates(platforms@),
        forall|k: int|
            0 <= k < candidates@.len() ==> may_carry_fruit(#[trigger] candidates@[k])
                && platforms@.contains(candidates@[k]),
        candidates@.len() == 0 <==> forall|i: int|
            0 <= i < platforms@.len() ==> !may_carry_fruit(#[trigger] platforms@[i]),
{
    let mut candidates: Vec<Platform> = Vec::new();
    let mut i: usize = 0;
    proof {
        reveal(Seq::filter);
        assert(platforms@.take(0) =~= Seq::<Platform>::empty());
    }
    while i < platforms.len()
        invariant
            i <= platforms.len(),
            candidates@ == fruit_candidates(platforms@.take(i as int)),
            forall|k: int|
                0 <= k < candidates@.len() ==> may_carry_fruit(#[trigger] candidates@[k])
                    && platforms@.contains(candidates@[k]),
            candidates@.len() == 0 <==> forall|j: int|
                0 <= j < i ==> !may_carry_fruit(#[trigger] platforms@[j]),
        decreases platforms.len() - i,
    {
        proof {
            lemma_candidates_step(platforms@, i as int);
        }
        let p = platforms[i];
        if p.y != START_Y {
            candidates.push(p);
        }
        i = i + 1;
    }
    proof {
        assert(platforms@.take(i as int) =~= platforms@);
    }
    candidates
}

/// Places the fruit of a layout.
///
/// Returns `None` exactly where every platform is at the starting
/// platform's height, so in particular for no platforms at all. Otherwise
/// the fruit rests on the candidate picked by the seed, which is never a
/// platform at the starting height.
pub fn place(platforms: &Vec<Platform>, seed: u64) -> (spot: Option<Position>)
    requires
        all_in_range(platforms@),
    ensures
        spot == fruit_spot(platforms@, seed),
        spot is None <==> forall|i: int|
            0 <= i < platforms@.len() ==> (#[trigger] platforms@[i]).y == START_Y,
        spot is Some ==> exists|i: int|
            0 <= i < platforms@.len() && (#[trigger] platforms@[i]).y != START_Y && spot
                == Some(fruit_on(platforms@[i])),
{
    let candidates = collect_candidates(platforms);
    if candidates.len() == 0 {
        return None;
    }
    let state: u64 = lcg_step_wide((seed as u128) * (FRUIT_SEED_FACTOR as u128));
    let index: usize = (state % (candidates.len() as u64)) as usize;
    let chosen = candidates[index];
    proof {
        assert(platforms@.contains(chosen));
        let i = choose|i: int| 0 <= i < platforms@.len() && platforms@[i] == chosen;
        assert(platforms@[i].y != START_Y);
    }
    Some(Position { x: chosen.x, y: chosen.y + PLATFORM_HALF_HEIGHT + FRUIT_HALF })
}

} // verus!
