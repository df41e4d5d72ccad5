use neko::direction::Direction;
use neko::direction::ANGLE_EIGHTH;
use neko::direction::ANGLE_PI;

/// Convert an angle in radians to the library's fixed-point scale.
fn fixed(radians: f32) -> i64 {
    (radians / std::f32::consts::PI * ANGLE_PI as f32).round() as i64
}

#[test]
fn right_octant_is_inclusive() {
    // Everything strictly between -pi/8 and pi/8 is Right, and the two
    // boundaries resolve deterministically to an adjoining octant.
    assert_eq!(Direction::from_angle(0), Direction::Right);
    assert_eq!(Direction::from_angle(1), Direction::Right);
    assert_eq!(Direction::from_angle(-1), Direction::Right);
    assert_eq!(Direction::from_angle(ANGLE_EIGHTH), Direction::Right);
    assert_eq!(Direction::from_angle(ANGLE_EIGHTH - 1), Direction::Right);
    assert_eq!(Direction::from_angle(-ANGLE_EIGHTH + 1), Direction::Right);
    assert_eq!(Direction::from_angle(-ANGLE_EIGHTH), Direction::UpRight);
}

#[test]
fn wraparound_is_consistent() {
    assert_eq!(Direction::from_angle(ANGLE_PI), Direction::Left);
    assert_eq!(Direction::from_angle(-ANGLE_PI), Direction::Left);
    assert_eq!(Direction::from_angle(ANGLE_PI), Direction::from_angle(-ANGLE_PI));
}

#[test]
fn octant_centers_classify() {
    assert_eq!(Direction::from_angle(2 * ANGLE_EIGHTH), Direction::DownRight);
    assert_eq!(Direction::from_angle(4 * ANGLE_EIGHTH), Direction::Down);
    assert_eq!(Direction::from_angle(6 * ANGLE_EIGHTH), Direction::DownLeft);
    assert_eq!(Direction::from_angle(ANGLE_PI - 1), Direction::Left);
    assert_eq!(Direction::from_angle(-ANGLE_PI + 1), Direction::Left);
    assert_eq!(Direction::from_angle(-6 * ANGLE_EIGHTH), Direction::UpLeft);
    assert_eq!(Direction::from_angle(-4 * ANGLE_EIGHTH), Direction::Up);
    assert_eq!(Direction::from_angle(-2 * ANGLE_EIGHTH), Direction::UpRight);
}

#[test]
fn octant_boundaries_are_deterministic() {
    // Positive boundaries go to the octant checked first (the lower one),
    // negative boundaries to the more negative one.
    assert_eq!(Direction::from_angle(3 * ANGLE_EIGHTH), Direction::DownRight);
    assert_eq!(Direction::from_angle(5 * ANGLE_EIGHTH), Direction::Down);
    assert_eq!(Direction::from_angle(7 * ANGLE_EIGHTH), Direction::DownLeft);
    assert_eq!(Direction::from_angle(-7 * ANGLE_EIGHTH), Direction::Left);
    assert_eq!(Direction::from_angle(-5 * ANGLE_EIGHTH), Direction::UpLeft);
    assert_eq!(Direction::from_angle(-3 * ANGLE_EIGHTH), Direction::Up);
}

#[test]
fn radian_angles_convert_to_octants() {
    let pi = std::f32::consts::PI;
    assert_eq!(Direction::from_angle(fixed(0.0)), Direction::Right);
    assert_eq!(Direction::from_angle(fixed(pi / 8.0)), Direction::Right);
    assert_eq!(Direction::from_angle(fixed(pi / 4.0)), Direction::DownRight);
    assert_eq!(Direction::from_angle(fixed(pi / 2.0)), Direction::Down);
    assert_eq!(Direction::from_angle(fixed(pi)), Direction::Left);
    assert_eq!(Direction::from_angle(fixed(-pi)), Direction::Left);
    assert_eq!(Direction::from_angle(fixed(-pi / 2.0)), Direction::Up);
    assert_eq!(Direction::from_angle(fixed(-pi / 4.0)), Direction::UpRight);
}

#[test]
fn vectors_classify_to_all_eight_directions() {
    assert_eq!(Direction::from_vector(1, 0), Direction::Right);
    assert_eq!(Direction::from_vector(5, 5), Direction::DownRight);
    assert_eq!(Direction::from_vector(0, 3), Direction::Down);
    assert_eq!(Direction::from_vector(-4, 4), Direction::DownLeft);
    assert_eq!(Direction::from_vector(-2, 0), Direction::Left);
    assert_eq!(Direction::from_vector(-6, -6), Direction::UpLeft);
    assert_eq!(Direction::from_vector(0, -1), Direction::Up);
    assert_eq!(Direction::from_vector(7, -7), Direction::UpRight);
}

#[test]
fn vector_octant_boundary_is_exact() {
    // tan(pi/8) is just over 0.41: a slope of 41/100 still classifies as
    // Right, 42/100 already as DownRight.
    assert_eq!(Direction::from_vector(100, 41), Direction::Right);
    assert_eq!(Direction::from_vector(100, 42), Direction::DownRight);
    assert_eq!(Direction::from_vector(100, -41), Direction::Right);
    assert_eq!(Direction::from_vector(100, -42), Direction::UpRight);
    assert_eq!(Direction::from_vector(41, 100), Direction::Down);
    assert_eq!(Direction::from_vector(42, 100), Direction::DownRight);
}
