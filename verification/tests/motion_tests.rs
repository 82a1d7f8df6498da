use metaballs::contour::interpolate;
use metaballs::motion::{
    accelerate, advance_coord, move_circle, net_force, pull_between, step, MotionError,
    MovingCircle, FORCE_COEFF, MAX_CIRCLES, V_MAX,
};
use metaballs::root::integer_root;
use metaballs::torus::toroidal_distance;

fn at(x: i32, y: i32, r: i32) -> MovingCircle {
    MovingCircle { x, y, r, dx: 0, dy: 0 }
}

#[test]
fn motion_constants() {
    assert_eq!(V_MAX, 500_000);
    assert_eq!(FORCE_COEFF, 10_000);
    assert_eq!(MAX_CIRCLES, 65536);
}

#[test]
fn integer_root_rounds_down() {
    assert_eq!(integer_root(0), 0);
    assert_eq!(integer_root(1), 1);
    assert_eq!(integer_root(15), 3);
    assert_eq!(integer_root(16), 4);
    assert_eq!(integer_root(17), 4);
    assert_eq!(integer_root(160_000_000_000_000_000), 400_000_000);
    assert_eq!(integer_root(159_999_999_999_999_999), 399_999_999);
    assert_eq!(integer_root(0x3_FFFF_FFFF_FFFF_FFFF), 0x1_FFFF_FFFF);
}

#[test]
fn toroidal_distance_rounds_down() {
    assert_eq!(toroidal_distance(0, 0, 3, 4), 5);
    assert_eq!(toroidal_distance(0, 0, 1, 1), 1);
    assert_eq!(toroidal_distance(-900_000_000, 0, 900_000_000, 0), 200_000_000);
    assert_eq!(toroidal_distance(900_000_000, 0, -900_000_000, 0), 200_000_000);
    assert_eq!(toroidal_distance(7, 7, 7, 7), 0);
    assert_eq!(
        toroidal_distance(i32::MIN, i32::MIN, i32::MAX, i32::MAX),
        toroidal_distance(i32::MAX, i32::MAX, i32::MIN, i32::MIN)
    );
}

#[test]
fn pull_exact_value() {
    let a = at(-200_000_000, 0, 100_000_000);
    let b = at(200_000_000, 0, 100_000_000);
    // k r^2 / d^2 = 1e-5 * 0.01 / 0.16 = 6.25e-7, all of it along x.
    assert_eq!(pull_between(&a, &b), (625, 0));
    assert_eq!(pull_between(&b, &a), (-625, 0));
}

#[test]
fn pull_splits_along_the_axes() {
    let a = at(0, 0, 100_000_000);
    let b = at(300_000_000, 400_000_000, 100_000_000);
    // d = 0.5: strength 1e-5 * 0.01 / 0.25 = 4e-7, shares 0.6 and 0.8.
    assert_eq!(pull_between(&a, &b), (240, 320));
    assert_eq!(pull_between(&b, &a), (-240, -320));
}

#[test]
fn pull_goes_the_shorter_way_round() {
    let a = at(-900_000_000, 0, 100_000_000);
    let b = at(900_000_000, 0, 100_000_000);
    // The two are 0.2 apart across the edge: a is drawn towards lower x.
    assert_eq!(pull_between(&a, &b), (-2500, 0));
    assert_eq!(pull_between(&b, &a), (2500, 0));
}

#[test]
fn coincident_circles_exert_no_force() {
    let a = at(5, 5, 100_000_000);
    assert_eq!(pull_between(&a, &a), (0, 0));
}

#[test]
fn two_circle_symmetric_scenario() {
    let mut circles = vec![
        at(-300_000_000, -400_000_000, 200_000_000),
        at(300_000_000, 400_000_000, 200_000_000),
    ];
    let first = net_force(&circles, 0);
    let second = net_force(&circles, 1);
    assert_eq!(first.0, -second.0);
    assert_eq!(first.1, -second.1);
    // d = 1: strength 1e-5 * 0.04, shares 0.6 and 0.8.
    assert_eq!(first, (240, 320));
    assert_eq!(step(&mut circles, 1), Ok(()));
    assert_eq!(circles[0].dx, 240);
    assert_eq!(circles[0].dy, 320);
    assert_eq!(circles[1].dx, -240);
    assert_eq!(circles[1].dy, -320);
    assert_eq!(circles[0].x, -300_000_000 + 240);
    assert_eq!(circles[0].y, -400_000_000 + 320);
    assert_eq!(circles[1].x, 300_000_000 - 240);
    assert_eq!(circles[1].y, 400_000_000 - 320);
}

#[test]
fn net_force_sums_each_axis_alone() {
    let circles = vec![
        at(0, 0, 100_000_000),
        at(500_000_000, 0, 100_000_000),
        at(0, -500_000_000, 100_000_000),
    ];
    // Each neighbour is 0.5 away: strength 4e-7 along its own axis.
    assert_eq!(net_force(&circles, 0), (400, -400));
}

#[test]
fn net_force_leaves_the_circle_itself_out() {
    let circles = vec![at(100, 200, 300_000_000)];
    assert_eq!(net_force(&circles, 0), (0, 0));
}

#[test]
fn accelerate_clamps() {
    assert_eq!(accelerate(0, 0), 0);
    assert_eq!(accelerate(100, 25), 125);
    assert_eq!(accelerate(499_999, 1), 500_000);
    assert_eq!(accelerate(499_999, 2), 500_000);
    assert_eq!(accelerate(0, -600_000), -500_000);
    assert_eq!(accelerate(i32::MAX, 0), 500_000);
    assert_eq!(accelerate(i32::MIN, 0), -500_000);
    assert_eq!(accelerate(0, i128::MAX), 500_000);
    assert_eq!(accelerate(0, i128::MIN), -500_000);
    assert_eq!(accelerate(i32::MAX, -(i32::MAX as i128)), 0);
}

#[test]
fn advance_wraps_to_the_opposite_edge() {
    assert_eq!(advance_coord(0, 100, 16), 1600);
    assert_eq!(advance_coord(-999_999_000, -500, 10), 1_000_000_000);
    assert_eq!(advance_coord(999_999_000, 500, 10), -1_000_000_000);
    assert_eq!(advance_coord(999_999_000, 100, 10), 1_000_000_000);
    assert_eq!(advance_coord(-999_999_000, -100, 10), -1_000_000_000);
    assert_eq!(advance_coord(0, 500_000, u32::MAX), -1_000_000_000);
    assert_eq!(advance_coord(0, -500_000, u32::MAX), 1_000_000_000);
    assert_eq!(advance_coord(i32::MIN, 0, 0), 1_000_000_000);
    assert_eq!(advance_coord(123, 77, 0), 123);
}

#[test]
fn zero_force_scenario() {
    let mut circles = vec![MovingCircle { x: 100_000, y: -200_000, r: 300_000_000, dx: 400, dy: -300 }];
    assert_eq!(step(&mut circles, 16), Ok(()));
    assert_eq!(
        circles[0],
        MovingCircle {
            x: 100_000 + 400 * 16,
            y: -200_000 - 300 * 16,
            r: 300_000_000,
            dx: 400,
            dy: -300
        }
    );
}

#[test]
fn single_circle_wraps_while_coasting() {
    let mut circles = vec![MovingCircle { x: -999_999_900, y: 999_999_900, r: 1, dx: -50, dy: 50 }];
    assert_eq!(step(&mut circles, 10), Ok(()));
    assert_eq!(circles[0].x, 1_000_000_000);
    assert_eq!(circles[0].y, -1_000_000_000);
    assert_eq!(circles[0].dx, -50);
    assert_eq!(circles[0].dy, 50);
}

#[test]
fn zero_elapsed_still_updates_velocity() {
    let mut circles = vec![
        MovingCircle { x: -200_000_000, y: 0, r: 100_000_000, dx: 900_000, dy: -7 },
        MovingCircle { x: 200_000_000, y: 0, r: 100_000_000, dx: 10, dy: 0 },
    ];
    assert_eq!(step(&mut circles, 0), Ok(()));
    assert_eq!(circles[0].x, -200_000_000);
    assert_eq!(circles[0].y, 0);
    assert_eq!(circles[0].dx, 500_000);
    assert_eq!(circles[0].dy, -7);
    assert_eq!(circles[1].x, 200_000_000);
    assert_eq!(circles[1].dx, 10 - 625);
}

#[test]
fn step_keeps_velocity_and_position_in_bounds() {
    let mut circles = vec![
        MovingCircle { x: i32::MAX, y: i32::MIN, r: i32::MAX, dx: i32::MAX, dy: i32::MIN },
        MovingCircle { x: 1, y: 0, r: i32::MIN, dx: -3, dy: 9 },
        MovingCircle { x: 0, y: 0, r: 1_000_000_000, dx: 0, dy: 0 },
        MovingCircle { x: -1_000_000_000, y: 1_000_000_000, r: 5, dx: 499_999, dy: -499_999 },
    ];
    let radii: Vec<i32> = circles.iter().map(|c| c.r).collect();
    for elapsed in [0u32, 1, 16, 1000, u32::MAX] {
        assert_eq!(step(&mut circles, elapsed), Ok(()));
        assert_eq!(circles.len(), 4);
        for (c, r) in circles.iter().zip(radii.iter()) {
            assert!(-1_000_000_000 <= c.x && c.x <= 1_000_000_000);
            assert!(-1_000_000_000 <= c.y && c.y <= 1_000_000_000);
            assert!(-500_000 <= c.dx && c.dx <= 500_000);
            assert!(-500_000 <= c.dy && c.dy <= 500_000);
            assert_eq!(c.r, *r);
        }
    }
}

#[test]
fn step_uses_the_state_before_the_step() {
    let before = vec![
        MovingCircle { x: -200_000_000, y: 0, r: 100_000_000, dx: 0, dy: 0 },
        MovingCircle { x: 200_000_000, y: 0, r: 100_000_000, dx: 0, dy: 0 },
        MovingCircle { x: 0, y: 300_000_000, r: 150_000_000, dx: 5, dy: 5 },
    ];
    let mut circles = before.clone();
    assert_eq!(step(&mut circles, 1000), Ok(()));
    for i in 0..3 {
        let force = net_force(&before, i);
        assert_eq!(circles[i], move_circle(&before[i], force.0, force.1, 1000));
    }
}

#[test]
fn move_circle_applies_force_then_advances() {
    let me = MovingCircle { x: 0, y: 0, r: 7, dx: 100, dy: -100 };
    assert_eq!(
        move_circle(&me, 50, -1_000_000, 10),
        MovingCircle { x: 1500, y: -5_000_000, r: 7, dx: 150, dy: -500_000 }
    );
}

#[test]
fn step_refuses_too_many_circles() {
    let mut circles = vec![MovingCircle { x: 1, y: 2, r: 3, dx: 4, dy: 5 }; 65537];
    assert_eq!(step(&mut circles, 16), Err(MotionError::TooManyCircles));
    assert_eq!(circles.len(), 65537);
    assert!(circles.iter().all(|c| *c == MovingCircle { x: 1, y: 2, r: 3, dx: 4, dy: 5 }));
}

#[test]
fn step_of_no_circles() {
    let mut circles: Vec<MovingCircle> = Vec::new();
    assert_eq!(step(&mut circles, 16), Ok(()));
    assert!(circles.is_empty());
}

#[test]
fn interpolate_exact_values() {
    assert_eq!(interpolate(0, 2_000_000_000), Some(500_000_000));
    assert_eq!(interpolate(2_000_000_000, 0), Some(500_000_000));
    assert_eq!(interpolate(500_000_000, 1_500_000_000), Some(500_000_000));
    assert_eq!(interpolate(0, -1_000_000_000), Some(-1_000_000_000));
    assert_eq!(interpolate(1_000_000_000, 5), Some(0));
    assert_eq!(interpolate(0, 3), Some(333_333_333_333_333_333));
    assert_eq!(interpolate(0, -3), Some(-333_333_333_333_333_333));
    assert_eq!(interpolate(2_000_000_000, 2_000_000_003), Some(-333_333_333_333_333_333));
}

#[test]
fn interpolate_of_equal_samples() {
    assert_eq!(interpolate(5, 5), None);
    assert_eq!(interpolate(0, 0), None);
    assert_eq!(interpolate(i64::MIN, i64::MIN), None);
}

#[test]
fn interpolate_with_extreme_inputs() {
    assert_eq!(interpolate(-2_147_483_648, 2_147_483_647), Some(732_830_643));
    // From the ceiling down by the smallest amount: -99 over -1e-9.
    assert_eq!(
        interpolate(100_000_000_000, 99_999_999_999),
        Some(99_000_000_000_000_000_000)
    );
    assert_eq!(
        interpolate(0, 100_000_000_000),
        Some(10_000_000)
    );
    assert_eq!(
        interpolate(i64::MIN, i64::MAX),
        Some(500_000_000)
    );
    assert_eq!(
        interpolate(i64::MAX, i64::MIN),
        Some(499_999_999)
    );
}
