use vampillage::grid::WorldVec2;
use vampillage::intercept::{calculate_intercept, intercept_point, isqrt_u128};

fn origin() -> WorldVec2 {
    WorldVec2 { x: 0, y: 0 }
}

#[test]
fn integer_square_root_rounds_down() {
    assert_eq!(isqrt_u128(0), 0);
    assert_eq!(isqrt_u128(1), 1);
    assert_eq!(isqrt_u128(15), 3);
    assert_eq!(isqrt_u128(16), 4);
    assert_eq!(isqrt_u128(1 << 40), 1 << 20);
}

#[test]
fn stationary_target_takes_distance_over_speed() {
    // target 300 units away, projectile speed 150: t == 2 seconds
    let sol = calculate_intercept(
        origin(),
        WorldVec2 { x: 300, y: 0 },
        WorldVec2 { x: 0, y: 0 },
        150,
    )
    .expect("stationary targets are always hit");
    assert_eq!(sol.t_num, 2 * sol.t_den);
    // and the intercept point is the target itself
    let at = intercept_point(WorldVec2 { x: 300, y: 0 }, WorldVec2 { x: 0, y: 0 }, sol)
        .expect("in bounds");
    assert_eq!(at, WorldVec2 { x: 300, y: 0 });
}

#[test]
fn head_on_target_is_met_halfway_in_time() {
    // target 100 away approaching at 50 against projectile speed 150:
    // 100 - 50 t == 150 t, so t == 1/2 and the hit lands at x == 75
    let sol = calculate_intercept(
        origin(),
        WorldVec2 { x: 100, y: 0 },
        WorldVec2 { x: -50, y: 0 },
        150,
    )
    .expect("closing target");
    assert_eq!(2 * sol.t_num, sol.t_den);
    let at = intercept_point(WorldVec2 { x: 100, y: 0 }, WorldVec2 { x: -50, y: 0 }, sol)
        .expect("in bounds");
    assert_eq!(at, WorldVec2 { x: 75, y: 0 });
}

#[test]
fn outrunning_target_has_no_solution() {
    // target faster than the projectile and moving directly away
    let r = calculate_intercept(
        origin(),
        WorldVec2 { x: 100, y: 0 },
        WorldVec2 { x: 200, y: 0 },
        150,
    );
    assert!(r.is_none());
}

#[test]
fn equal_speeds_along_the_chase_have_no_solution() {
    // the quadratic degenerates when the target matches projectile speed
    let r = calculate_intercept(
        origin(),
        WorldVec2 { x: 100, y: 0 },
        WorldVec2 { x: 150, y: 0 },
        150,
    );
    assert!(r.is_none());
}

#[test]
fn crossing_target_is_led() {
    // target at (300, 0) moving up at 90 against projectile speed 150:
    // 300^2 + (90 t)^2 == (150 t)^2 gives t == 2.5, lead point (300, 225)
    let sol = calculate_intercept(
        origin(),
        WorldVec2 { x: 300, y: 0 },
        WorldVec2 { x: 0, y: 90 },
        150,
    )
    .expect("crossing target");
    assert_eq!(2 * sol.t_num, 5 * sol.t_den);
    let at = intercept_point(WorldVec2 { x: 300, y: 0 }, WorldVec2 { x: 0, y: 90 }, sol)
        .expect("in bounds");
    assert_eq!(at, WorldVec2 { x: 300, y: 225 });
}
