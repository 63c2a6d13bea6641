use pong::fixed::{advance, divide, integrate, product, saturate, saturate32, ONE};
use pong::geometry::{clamp, collide, Vec2};

fn at(x: i64, y: i64) -> Vec2 {
    Vec2 { x, y }
}

#[test]
fn zero_and_new() {
    assert_eq!(Vec2::zero(), Vec2 { x: 0, y: 0 });
    assert_eq!(Vec2::new(3, -4), Vec2 { x: 3, y: -4 });
}

#[test]
fn one_is_a_million() {
    assert_eq!(ONE, 1_000_000);
}

#[test]
fn boxes_that_overlap_collide() {
    assert!(collide(&at(0, 0), &at(10, 10), &at(15, 0), &at(10, 10)));
    assert!(collide(&at(0, 0), &at(10, 10), &at(-19, 19), &at(10, 10)));
    assert!(collide(&at(5, 5), &at(1, 1), &at(5, 5), &at(0, 0)));
}

#[test]
fn boxes_that_only_touch_do_not_collide() {
    assert!(!collide(&at(0, 0), &at(10, 10), &at(20, 0), &at(10, 10)));
    assert!(!collide(&at(0, 0), &at(10, 10), &at(0, -20), &at(10, 10)));
    assert!(!collide(&at(5, 5), &at(0, 0), &at(5, 5), &at(0, 0)));
}

#[test]
fn boxes_apart_on_one_axis_do_not_collide() {
    assert!(!collide(&at(0, 0), &at(10, 10), &at(5, 30), &at(10, 10)));
    assert!(!collide(&at(0, 0), &at(10, 10), &at(30, 5), &at(10, 10)));
}

#[test]
fn collide_is_symmetric() {
    let points = [at(0, 0), at(15, 0), at(-19, 19), at(20, 0), at(5, 30), at(i64::MAX, i64::MIN)];
    let extents = [at(10, 10), at(0, 0), at(1, 25), at(-3, 40), at(i64::MAX, i64::MAX)];
    for p1 in points {
        for p2 in points {
            for e1 in extents {
                for e2 in extents {
                    assert_eq!(collide(&p1, &e1, &p2, &e2), collide(&p2, &e2, &p1, &e1));
                }
            }
        }
    }
}

#[test]
fn collide_at_the_ends_of_the_number_range() {
    assert!(!collide(&at(i64::MIN, 0), &at(1, 1), &at(i64::MAX, 0), &at(1, 1)));
    assert!(collide(&at(i64::MIN, 0), &at(i64::MAX, 1), &at(i64::MAX, 0), &at(i64::MAX, 1)) == false);
    assert!(collide(&at(i64::MAX, i64::MAX), &at(i64::MAX, i64::MAX), &at(1, 1), &at(0, 0)));
}

#[test]
fn clamp_holds_within_bounds() {
    assert_eq!(clamp(5, -10, 10), 5);
    assert_eq!(clamp(-50, -10, 10), -10);
    assert_eq!(clamp(50, -10, 10), 10);
    assert_eq!(clamp(-10, -10, 10), -10);
    assert_eq!(clamp(10, -10, 10), 10);
    assert_eq!(clamp(i64::MIN, -800_000, 800_000), -800_000);
    assert_eq!(clamp(i64::MAX, -800_000, 800_000), 800_000);
}

#[test]
fn clamp_with_crossed_bounds_gives_the_upper() {
    assert_eq!(clamp(0, 10, -10), -10);
    assert_eq!(clamp(100, 10, -10), -10);
    assert_eq!(clamp(-100, 10, -10), -10);
}

#[test]
fn saturate_cuts_off() {
    assert_eq!(saturate(0), 0);
    assert_eq!(saturate(i64::MAX as i128), i64::MAX);
    assert_eq!(saturate(i64::MAX as i128 + 1), i64::MAX);
    assert_eq!(saturate(i64::MIN as i128 - 1), i64::MIN);
    assert_eq!(saturate(i128::MIN), i64::MIN);
    assert_eq!(saturate32(-7), -7);
    assert_eq!(saturate32(i32::MAX as i128 + 1), i32::MAX);
    assert_eq!(saturate32(i32::MIN as i128 - 1), i32::MIN);
}

#[test]
fn divide_rounds_toward_zero() {
    assert_eq!(divide(7, 2), 3);
    assert_eq!(divide(-7, 2), -3);
    assert_eq!(divide(-1, 1000), 0);
    assert_eq!(divide(999, 1000), 0);
    assert_eq!(divide(-1000, 1000), -1);
    assert_eq!(divide(0, 5), 0);
}

#[test]
fn product_is_exact() {
    assert_eq!(product(3, -4), -12);
    assert_eq!(product(i64::MIN, i64::MIN), 1i128 << 126);
    assert_eq!(product(i64::MAX, i64::MIN), -(i64::MAX as i128) * (1i128 << 63));
}

#[test]
fn advance_at_unit_velocity() {
    assert_eq!(advance(0, 1_000_000, 100, 1_200), 120_000);
    assert_eq!(advance(0, -1_000_000, 100, 1_200), -120_000);
    assert_eq!(advance(5, 1_000_000, -100, 1_200), 5 - 120_000);
    assert_eq!(advance(5, 1_000_000, 0, 1_200), 5);
}

#[test]
fn advance_at_other_velocities() {
    assert_eq!(advance(0, 500_000, 1, 1_200), 600);
    assert_eq!(advance(0, 1, 1, 1_200), 0);
    assert_eq!(advance(0, -1, 1_000, 1_200), -1);
    assert_eq!(advance(0, 3_000_000, 16, 1_200), 57_600);
    assert_eq!(advance(i64::MAX, 1_000_000, 1, 1), i64::MAX);
    assert_eq!(advance(0, i64::MIN, 4_294_967_295, 65_536), i64::MIN);
}

#[test]
fn integrate_over_a_second_adds_the_rate() {
    assert_eq!(integrate(10, 250, 1000), 260);
    assert_eq!(integrate(10, 250, 500), 135);
    assert_eq!(integrate(10, -250, 2), 10);
    assert_eq!(integrate(10, -250, 4), 9);
    assert_eq!(integrate(i64::MIN, -1, i64::MAX), i64::MIN);
}
