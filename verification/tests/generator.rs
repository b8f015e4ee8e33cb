use platformer::generator::{fill_layout, generate, make_candidate};
use platformer::platform::{all_within_range, Platform};
use platformer::rng::{lcg_step, lcg_step_wide, Lcg};

fn plat(x: i64, y: i64, width: i64) -> Platform {
    Platform { x, y, width }
}

fn gap(a: i64, b: i64) -> i64 {
    if a < b {
        b - a
    } else {
        a - b
    }
}

fn pair_conflicts(a: &Platform, b: &Platform) -> bool {
    let dx: i64 = gap(a.x, b.x);
    let dy: i64 = gap(a.y, b.y);
    let crowding: bool = 2 * dx < a.width + b.width + 1_600_000 && dy < 600_000;
    let too_near: bool = dx * dx + dy * dy < 640_000_000_000;
    crowding || too_near
}

#[test]
fn lcg_step_matches_formula() {
    assert_eq!(lcg_step(0), 12345);
    assert_eq!(lcg_step(1), 1103527590);
    assert_eq!(lcg_step(12345), 1406932606);
    assert_eq!(lcg_step(1406932606), 654583775);
}

#[test]
fn lcg_step_wraps_large_states() {
    assert_eq!(lcg_step(u64::MAX), 1043980748);
    assert_eq!(lcg_step_wide(u64::MAX as u128), 1043980748);
}

#[test]
fn lcg_next_keeps_state() {
    let mut rng = Lcg::new(12345);
    assert_eq!(rng.next(), 1406932606);
    assert_eq!(rng.state, 1406932606);
    assert_eq!(rng.next(), 654583775);
}

#[test]
fn candidate_from_lowest_draws() {
    assert_eq!(make_candidate(0, 0, 0), plat(-4_900_000, -3_250_000, 1_200_000));
}

#[test]
fn candidate_from_highest_draws() {
    assert_eq!(make_candidate(999, 999, 999), plat(4_391_699, 3_243_500, 2_199_000));
}

#[test]
fn candidate_from_middle_draws() {
    assert_eq!(make_candidate(500, 500, 500), plat(0, 0, 1_700_000));
}

#[test]
fn generate_seed_zero_layout() {
    let level = generate(0);
    let expected = vec![
        plat(0, 1_000_000, 2_000_000),
        plat(2_528_350, 2_756_000, 1_806_000),
        plat(-2_971_094, -266_500, 1_773_000),
        plat(2_815_144, -1_235_000, 1_392_000),
        plat(-2_466_048, -1_969_500, 1_367_000),
        plat(3_188_390, 175_500, 1_785_000),
        plat(-1_906_100, 2_944_500, 1_275_000),
    ];
    assert_eq!(level.platforms, expected);
    assert_eq!(level.final_rng_state, 2103497953);
}

#[test]
fn generate_seed_forty_two_layout() {
    let level = generate(42);
    let expected = vec![
        plat(0, 1_000_000, 2_000_000),
        plat(2_412_608, 1_989_000, 1_464_000),
        plat(290_080, -1_085_500, 1_935_000),
        plat(-3_198_730, 1_319_500, 2_065_000),
        plat(1_058_132, 2_691_000, 1_636_000),
        plat(-4_790_500, -2_255_500, 1_419_000),
        plat(-587_862, -58_500, 2_093_000),
        plat(-2_694_790, -702_000, 1_410_000),
        plat(4_646_460, -325_000, 1_340_000),
    ];
    assert_eq!(level.platforms, expected);
    assert_eq!(level.final_rng_state, 529748450);
}

#[test]
fn generate_largest_seed_layout() {
    let level = generate(u64::MAX);
    assert_eq!(level.platforms.len(), 10);
    assert_eq!(level.platforms[1], plat(-299_574, -2_814_500, 2_189_000));
    assert_eq!(level.platforms[9], plat(-1_079_844, -955_500, 1_691_000));
    assert_eq!(level.final_rng_state, 969149353);
}

#[test]
fn generate_always_begins_with_starting_platform() {
    let mut seed: u64 = 0;
    while seed < 500 {
        let level = generate(seed.wrapping_mul(0x9E37_79B9_7F4A_7C15));
        assert!(!level.platforms.is_empty());
        assert_eq!(level.platforms[0], plat(0, 1_000_000, 2_000_000));
        seed += 1;
    }
}

#[test]
fn generate_keeps_platform_count_in_bounds() {
    let mut seed: u64 = 0;
    while seed < 500 {
        let level = generate(seed);
        let target: usize = 6 + (lcg_step(seed) % 5) as usize;
        assert!(level.platforms.len() >= 1);
        assert!(level.platforms.len() <= target + 1);
        assert!(level.platforms.len() <= 11);
        seed += 1;
    }
}

#[test]
fn generate_obeys_spacing_for_every_pair() {
    let mut seed: u64 = 0;
    while seed < 300 {
        let level = generate(seed.wrapping_mul(6364136223846793005).wrapping_add(seed));
        let n: usize = level.platforms.len();
        let mut i: usize = 0;
        while i < n {
            let mut j: usize = 0;
            while j < n {
                if i != j {
                    assert!(!pair_conflicts(&level.platforms[i], &level.platforms[j]));
                    assert!(!level.platforms[i].conflicts_with(&level.platforms[j]));
                }
                j += 1;
            }
            i += 1;
        }
        seed += 1;
    }
}

#[test]
fn generate_keeps_off_start_and_inside_window() {
    let mut seed: u64 = 0;
    while seed < 300 {
        let level = generate(seed);
        let mut i: usize = 1;
        while i < level.platforms.len() {
            let p = level.platforms[i];
            assert!(!(gap(p.x, 0) < 1_200_000 && gap(p.y, 1_000_000) < 700_000));
            assert!(2 * gap(p.x, 0) <= 12_000_000 - p.width - 1_000_000);
            assert!(gap(p.y, 0) <= 3_000_000);
            assert!(p.width >= 1_200_000 && p.width < 2_200_000);
            assert!(!p.is_near_start());
            assert!(!p.is_out_of_bounds());
            assert!(p.is_in_range());
            i += 1;
        }
        seed += 1;
    }
}

#[test]
fn generate_is_deterministic() {
    let mut seed: u64 = 0;
    while seed < 100 {
        let first = generate(seed * 977);
        let second = generate(seed * 977);
        assert_eq!(first.platforms, second.platforms);
        assert_eq!(first.final_rng_state, second.final_rng_state);
        seed += 1;
    }
}

#[test]
fn generate_differs_between_seeds() {
    assert_ne!(generate(0).platforms, generate(1).platforms);
}

#[test]
fn starting_platform_is_fixed() {
    assert_eq!(Platform::starting(), plat(0, 1_000_000, 2_000_000));
    assert_eq!(Platform::starting().height(), 200_000);
}

#[test]
fn crowding_needs_both_gaps_small() {
    let a = plat(0, 0, 2_000_000);
    // Required horizontal gap: 100 + 60 + 80 world units.
    let beside = plat(2_399_999, 599_999, 1_200_000);
    assert!(a.conflicts_with(&beside));
    let far_enough = plat(2_400_000, 599_999, 1_200_000);
    assert!(!a.conflicts_with(&far_enough));
    let high_enough = plat(2_399_999, 600_000, 1_200_000);
    assert!(!a.conflicts_with(&high_enough));
}

#[test]
fn centres_closer_than_minimum_conflict() {
    let a = plat(0, 0, 0);
    // Narrow platforms, so only the distance between centres can reject.
    let near = plat(0, 799_999, 0);
    assert!(a.conflicts_with(&near));
    let at_distance = plat(0, 800_000, 0);
    assert!(!a.conflicts_with(&at_distance));
    let beside = plat(1_600_000, 0, 0);
    assert!(!a.conflicts_with(&beside));
}

#[test]
fn conflict_is_symmetric() {
    let a = plat(100_000, -200_000, 1_500_000);
    let b = plat(2_000_000, 300_000, 1_300_000);
    assert_eq!(a.conflicts_with(&b), b.conflicts_with(&a));
    assert!(a.conflicts_with(&b));
}

#[test]
fn start_area_is_kept_free() {
    assert!(plat(1_199_999, 1_699_999, 1_200_000).is_near_start());
    assert!(!plat(1_200_000, 1_000_000, 1_200_000).is_near_start());
    assert!(!plat(0, 1_700_000, 1_200_000).is_near_start());
    assert!(plat(-1_199_999, 300_001, 1_200_000).is_near_start());
}

#[test]
fn window_margins_are_kept() {
    // Half the window, less half the width, less the margin: 600 - 60 - 50.
    assert!(!plat(4_900_000, 0, 1_200_000).is_out_of_bounds());
    assert!(plat(4_900_001, 0, 1_200_000).is_out_of_bounds());
    assert!(plat(-4_900_001, 0, 1_200_000).is_out_of_bounds());
    assert!(!plat(0, 3_000_000, 1_200_000).is_out_of_bounds());
    assert!(plat(0, 3_000_001, 1_200_000).is_out_of_bounds());
    assert!(plat(0, -3_000_001, 1_200_000).is_out_of_bounds());
}

#[test]
fn fits_among_checks_every_rule() {
    let placed = vec![plat(0, 1_000_000, 2_000_000), plat(3_000_000, -2_000_000, 1_500_000)];
    assert!(plat(-3_000_000, -1_000_000, 1_400_000).fits_among(&placed));
    assert!(!plat(3_100_000, -2_100_000, 1_400_000).fits_among(&placed));
    assert!(!plat(500_000, 1_200_000, 1_400_000).fits_among(&placed));
    assert!(plat(4_800_000, 0, 1_400_000).fits_among(&placed));
    assert!(!plat(4_800_001, 0, 1_400_000).fits_among(&placed));
    assert!(plat(0, -2_500_000, 1_400_000).fits_among(&Vec::new()));
}

#[test]
fn fill_without_attempts_places_nothing() {
    let level = fill_layout(vec![Platform::starting()], 12345, 6, 0);
    assert_eq!(level.platforms, vec![plat(0, 1_000_000, 2_000_000)]);
    assert_eq!(level.final_rng_state, 12345);
}

#[test]
fn fill_takes_three_states_per_attempt() {
    let level = fill_layout(vec![Platform::starting()], 12345, 6, 1);
    assert_eq!(
        level.platforms,
        vec![plat(0, 1_000_000, 2_000_000), plat(2_528_350, 2_756_000, 1_806_000)]
    );
    assert_eq!(level.final_rng_state, 1449466924);
}

#[test]
fn fill_keeps_rejected_candidate_out() {
    let level = fill_layout(vec![Platform::starting()], 4, 6, 1);
    assert_eq!(level.platforms, vec![plat(0, 1_000_000, 2_000_000)]);
    assert_eq!(level.final_rng_state, 687545011);
}

#[test]
fn fill_stops_at_target() {
    let level = fill_layout(vec![Platform::starting()], 12345, 2, 100);
    assert_eq!(
        level.platforms,
        vec![
            plat(0, 1_000_000, 2_000_000),
            plat(2_528_350, 2_756_000, 1_806_000),
            plat(-2_971_094, -266_500, 1_773_000),
        ]
    );
    assert_eq!(level.final_rng_state, 1051550459);
}

#[test]
fn fill_with_exhausted_budget_returns_fewer_platforms() {
    let level = fill_layout(vec![Platform::starting()], 1, 40, 400);
    assert_eq!(level.platforms.len(), 23);
    assert_eq!(level.final_rng_state, 408542673);
    let longer = fill_layout(vec![Platform::starting()], 1, 40, 5000);
    assert_eq!(longer.platforms.len(), 25);
    assert_eq!(longer.final_rng_state, 391006505);
}

#[test]
fn range_test_covers_every_platform() {
    assert!(all_within_range(&Vec::new()));
    assert!(all_within_range(&generate(5).platforms));
    let limit: i64 = 1_000_000_000_000;
    assert!(all_within_range(&vec![plat(limit, -limit, limit)]));
    assert!(!all_within_range(&vec![plat(0, 0, 0), plat(limit + 1, 0, 0)]));
    assert!(!all_within_range(&vec![plat(0, 0, -1)]));
    assert!(!plat(0, -limit - 1, 0).is_in_range());
}

#[test]
fn generate_leaves_generator_state_below_modulus() {
    let mut seed: u64 = 0;
    while seed < 200 {
        assert!(generate(seed.wrapping_mul(0xDEAD_BEEF_1234_5677)).final_rng_state < 0x8000_0000);
        seed += 1;
    }
}
