use platformer::generator::generate;
use platformer::physics::{scale_by_time, Input, Player};
use platformer::platform::Platform;

fn player(x: i64, y: i64, vx: i64, vy: i64, grounded: bool) -> Player {
    Player { x, y, vx, vy, grounded }
}

fn no_input() -> Input {
    Input { move_left: false, move_right: false, jump_just_pressed: false }
}

fn jump() -> Input {
    Input { move_left: false, move_right: false, jump_just_pressed: true }
}

fn start_platform() -> Platform {
    Platform { x: 0, y: 1_000_000, width: 2_000_000 }
}

fn box_overlaps(p: &Player, plat: &Platform) -> bool {
    p.x + 250_000 > plat.x - plat.width / 2
        && p.x - 250_000 < plat.x + plat.width / 2
        && p.y + 250_000 > plat.y - 100_000
        && p.y - 250_000 < plat.y + 100_000
}

#[test]
fn gravity_for_one_tick() {
    let start = Player::spawn();
    assert_eq!(start, player(0, 2_000_000, 0, 0, false));
    let fallen = start.apply_gravity(16_000);
    assert_eq!(fallen.vy, -320_000);
    let speed: f64 = fallen.vy as f64 / 10_000.0;
    assert!((speed - (-32.0)).abs() < 1e-9);
    let moved = fallen.apply_velocity(16_000);
    assert_eq!(moved, player(0, 1_994_880, 0, -320_000, false));
    let height: f64 = moved.y as f64 / 10_000.0;
    assert!((height - 199.488).abs() < 1e-9);
}

#[test]
fn step_in_empty_world_falls() {
    let after = Player::spawn().step(&no_input(), 16_000, &Vec::new());
    assert_eq!(after, player(0, 1_994_880, 0, -320_000, false));
}

#[test]
fn falling_player_lands_on_platform_top() {
    let falling = player(0, 1_300_000, 0, -500_000, false);
    let landed = falling.resolve_collisions(&vec![start_platform()]);
    // Upper edge of the platform at 110, half the player above it.
    assert_eq!(landed, player(0, 1_350_000, 0, 0, true));
}

#[test]
fn landing_keeps_upward_velocity() {
    let rising = player(0, 1_300_000, 0, 400_000, false);
    let after = rising.resolve_platform(&start_platform());
    assert_eq!(after, player(0, 1_350_000, 0, 400_000, true));
}

#[test]
fn landing_keeps_horizontal_velocity() {
    let sliding = player(300_000, 1_340_000, 3_000_000, -100, false);
    let after = sliding.resolve_platform(&start_platform());
    assert_eq!(after, player(300_000, 1_350_000, 3_000_000, 0, true));
}

#[test]
fn hitting_underside_stops_rise_without_grounding() {
    let rising = player(0, 700_000, 0, 3_000_000, false);
    let after = rising.resolve_collisions(&vec![start_platform()]);
    assert_eq!(after, player(0, 650_000, 0, 0, false));
}

#[test]
fn hitting_underside_keeps_earlier_grounding() {
    let rising = player(0, 700_000, 0, 3_000_000, true);
    let after = rising.resolve_platform(&start_platform());
    assert_eq!(after, player(0, 650_000, 0, 0, true));
}

#[test]
fn side_hit_from_left_pushes_out_and_stops() {
    let walking = player(-1_200_000, 1_000_000, 3_000_000, -100_000, false);
    let after = walking.resolve_collisions(&vec![start_platform()]);
    assert_eq!(after, player(-1_250_000, 1_000_000, 0, -100_000, false));
}

#[test]
fn side_hit_from_right_pushes_out_and_stops() {
    let walking = player(1_200_000, 1_000_000, -3_000_000, 0, false);
    let after = walking.resolve_platform(&start_platform());
    assert_eq!(after, player(1_250_000, 1_000_000, 0, 0, false));
}

#[test]
fn equal_overlaps_resolve_vertically() {
    let corner = player(-1_200_000, 1_300_000, 0, -10, false);
    let after = corner.resolve_platform(&start_platform());
    assert_eq!(after, player(-1_200_000, 1_350_000, 0, 0, true));
}

#[test]
fn no_overlap_changes_nothing() {
    let far = player(3_000_000, 2_000_000, 5, -7, false);
    assert_eq!(far.resolve_platform(&start_platform()), far);
    let touching_side = player(1_250_000, 1_000_000, -5, 0, false);
    assert_eq!(touching_side.resolve_platform(&start_platform()), touching_side);
}

#[test]
fn resting_player_stays_put_and_grounded() {
    let resting = player(0, 1_350_000, 0, 0, true);
    let once = resting.resolve_collisions(&vec![start_platform()]);
    assert_eq!(once, resting);
    let twice = once.resolve_collisions(&vec![start_platform()]);
    assert_eq!(twice, once);
}

#[test]
fn resting_player_is_stable_on_generated_layouts() {
    let mut checked: u32 = 0;
    let mut seed: u64 = 0;
    while seed < 200 {
        let level = generate(seed);
        let resting = player(500_000, 1_350_000, 0, 0, false);
        let mut free: bool = true;
        let mut i: usize = 0;
        while i < level.platforms.len() {
            if box_overlaps(&resting, &level.platforms[i]) {
                free = false;
            }
            i += 1;
        }
        if free {
            let after = resting.resolve_collisions(&level.platforms);
            assert_eq!(after, player(500_000, 1_350_000, 0, 0, true));
            checked += 1;
        }
        seed += 1;
    }
    assert!(checked > 150);
}

#[test]
fn grounded_is_reset_each_resolution() {
    let airborne = player(0, 2_500_000, 0, 0, true);
    let after = airborne.resolve_collisions(&vec![start_platform()]);
    assert_eq!(after, player(0, 2_500_000, 0, 0, false));
}

#[test]
fn standing_band_reaches_five_units_above_top() {
    let platforms = vec![start_platform()];
    let at_band = player(0, 1_400_000, 0, 0, false);
    assert!(at_band.resolve_collisions(&platforms).grounded);
    assert_eq!(at_band.resolve_collisions(&platforms).y, 1_400_000);
    let above_band = player(0, 1_400_001, 0, 0, false);
    assert!(!above_band.resolve_collisions(&platforms).grounded);
    let rising = player(0, 1_400_000, 0, 1, false);
    assert!(!rising.resolve_collisions(&platforms).grounded);
    let beside = player(1_250_000, 1_350_000, 0, 0, false);
    assert!(!beside.resolve_collisions(&platforms).grounded);
}

#[test]
fn window_sides_clamp_position() {
    let right = player(6_000_000, 0, 3_000_000, 0, false);
    assert_eq!(right.resolve_collisions(&Vec::new()), player(5_750_000, 0, 3_000_000, 0, false));
    let left = player(-7_000_000, 0, -3_000_000, 0, false);
    assert_eq!(left.resolve_collisions(&Vec::new()), player(-5_750_000, 0, -3_000_000, 0, false));
    let high = player(0, 90_000_000, 0, 0, false);
    assert_eq!(high.resolve_collisions(&Vec::new()), high);
}

#[test]
fn platforms_are_resolved_one_after_another() {
    let platforms = vec![
        Platform { x: 0, y: 1_000_000, width: 2_000_000 },
        Platform { x: 0, y: 1_200_000, width: 2_000_000 },
    ];
    let falling = player(0, 1_300_000, 0, -500_000, false);
    // Put on the first platform, the player stands inside the second and is
    // put on that one in turn.
    let after_first = falling.resolve_platform(&platforms[0]);
    assert_eq!(after_first, player(0, 1_350_000, 0, 0, true));
    let after = falling.resolve_collisions(&platforms);
    assert_eq!(after, player(0, 1_550_000, 0, 0, true));
}

#[test]
fn push_under_a_platform_keeps_grounding_from_an_earlier_one() {
    let platforms = vec![
        Platform { x: 0, y: 1_000_000, width: 2_000_000 },
        Platform { x: 0, y: 1_400_000, width: 2_000_000 },
    ];
    let falling = player(0, 1_300_000, 0, -500_000, false);
    let after = falling.resolve_collisions(&platforms);
    assert_eq!(after, player(0, 1_050_000, 0, 0, true));
}

#[test]
fn steering_follows_keys() {
    let p = player(0, 0, 123, 456, true);
    let left = Input { move_left: true, move_right: false, jump_just_pressed: false };
    let right = Input { move_left: false, move_right: true, jump_just_pressed: false };
    let both = Input { move_left: true, move_right: true, jump_just_pressed: false };
    assert_eq!(p.steer(&left), player(0, 0, -3_000_000, 456, true));
    assert_eq!(p.steer(&right), player(0, 0, 3_000_000, 456, true));
    assert_eq!(p.steer(&both), player(0, 0, 0, 456, true));
    assert_eq!(p.steer(&no_input()), player(0, 0, 0, 456, true));
}

#[test]
fn steering_in_air_has_full_control() {
    let p = player(0, 0, 0, -5, false);
    let right = Input { move_left: false, move_right: true, jump_just_pressed: false };
    assert_eq!(p.steer(&right).vx, 3_000_000);
}

#[test]
fn jump_needs_ground() {
    let grounded = player(0, 1_350_000, 0, 0, true);
    assert_eq!(grounded.steer(&jump()).vy, 7_000_000);
    let airborne = player(0, 1_350_000, 0, -25, false);
    assert_eq!(airborne.steer(&jump()).vy, -25);
}

#[test]
fn jump_needs_fresh_press() {
    let grounded = player(0, 1_350_000, 0, 0, true);
    assert_eq!(grounded.steer(&no_input()).vy, 0);
}

#[test]
fn held_jump_key_does_not_jump_again() {
    let platforms = vec![start_platform()];
    let grounded = player(0, 1_350_000, 0, 0, true);
    let first = grounded.step(&jump(), 16_000, &platforms);
    assert_eq!(first, player(0, 1_456_880, 0, 6_680_000, false));
    // The key is still down, which is no fresh press.
    let second = first.step(&no_input(), 16_000, &platforms);
    assert_eq!(second, player(0, 1_558_640, 0, 6_360_000, false));
    // A fresh press in the air does nothing either.
    let third = second.step(&jump(), 16_000, &platforms);
    assert_eq!(third, player(0, 1_655_280, 0, 6_040_000, false));
}

#[test]
fn walking_on_platform_stays_grounded() {
    let platforms = vec![start_platform()];
    let right = Input { move_left: false, move_right: true, jump_just_pressed: false };
    let standing = player(0, 1_350_000, 0, 0, true);
    let after = standing.step(&right, 16_000, &platforms);
    assert_eq!(after, player(48_000, 1_350_000, 3_000_000, 0, true));
}

#[test]
fn time_scaling_rounds_toward_zero() {
    assert_eq!(scale_by_time(7, 500_000), 3);
    assert_eq!(scale_by_time(-7, 500_000), -3);
    assert_eq!(scale_by_time(-1, 999_999), 0);
    assert_eq!(scale_by_time(-3_000_000, 16_667), -50_001);
    assert_eq!(scale_by_time(20_000_000, 16_000), 320_000);
    assert_eq!(scale_by_time(0, u32::MAX), 0);
    assert_eq!(scale_by_time(2_000_000_000_000, u32::MAX), 8_589_934_590_000_000);
    assert_eq!(scale_by_time(123, 0), 0);
}

#[test]
fn range_test_matches_limits() {
    assert!(player(1_000_000_000_000, -1_000_000_000_000, 0, 0, false).is_in_range());
    assert!(!player(1_000_000_000_001, 0, 0, 0, false).is_in_range());
    assert!(!player(0, 0, 0, -1_000_000_000_001, false).is_in_range());
}

#[test]
fn grounded_flag_going_in_does_not_matter() {
    let platforms = vec![start_platform()];
    let a = player(0, 1_300_000, 5, -500_000, false);
    let b = player(0, 1_300_000, 5, -500_000, true);
    assert_eq!(a.resolve_collisions(&platforms), b.resolve_collisions(&platforms));
    let c = player(3_000_000, 0, 0, 0, true);
    assert!(!c.resolve_collisions(&platforms).grounded);
    assert!(!c.resolve_collisions(&Vec::new()).grounded);
}

#[test]
fn resting_under_a_low_platform_is_pushed_down() {
    // The upper platform keeps the vertical gap of 60 units and still
    // reaches into a player that stands on the lower one.
    let platforms = vec![
        Platform { x: 0, y: 1_000_000, width: 2_000_000 },
        Platform { x: 0, y: 1_600_000, width: 2_000_000 },
    ];
    let resting = player(0, 1_350_000, 0, 0, true);
    let after = resting.resolve_collisions(&platforms);
    assert_eq!(after, player(0, 1_250_000, 0, 0, true));
}
