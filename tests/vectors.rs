use cat_box::{Direction, Vec2Int, Vec3Int};

#[test]
fn direction_flips() {
    assert_eq!(Direction::East.flip_x(), Direction::West);
    assert_eq!(Direction::West.flip_x(), Direction::East);
    assert_eq!(Direction::North.flip_x(), Direction::North);
    assert_eq!(Direction::North.flip_y(), Direction::South);
    assert_eq!(Direction::South.flip_y(), Direction::North);
    assert_eq!(Direction::East.flip_y(), Direction::East);
}

#[test]
fn flipped_is_both_flips_and_negation() {
    for d in [Direction::North, Direction::South, Direction::East, Direction::West] {
        assert_eq!(d.flipped(), d.flip_x().flip_y());
        assert_eq!(d.neg(), d.flipped());
        assert_eq!(Vec2Int::from(d.flipped()), Vec2Int::from(d).neg());
    }
    assert_eq!(Direction::North.flipped(), Direction::South);
    assert_eq!(Direction::East.flipped(), Direction::West);
}

#[test]
fn direction_unit_vectors() {
    assert_eq!(Vec2Int::from(Direction::North), Vec2Int::new(0, -1));
    assert_eq!(Vec2Int::from(Direction::South), Vec2Int::new(0, 1));
    assert_eq!(Vec2Int::from(Direction::East), Vec2Int::new(1, 0));
    assert_eq!(Vec2Int::from(Direction::West), Vec2Int::new(-1, 0));
}

#[test]
fn direction_times_scalar() {
    assert_eq!(Direction::West.mul(5), Vec2Int::new(-5, 0));
    assert_eq!(Direction::North.mul(3), Vec2Int::new(0, -3));
}

#[test]
fn vec2int_magnitude_and_distance() {
    assert_eq!(Vec2Int::new(3, 4).sq_magnitude(), 25);
    assert_eq!(Vec2Int::new(-3, 4).sq_magnitude(), 25);
    assert_eq!(Vec2Int::new(1, 1).sq_dist(Vec2Int::new(4, 5)), 25);
    assert_eq!(Vec2Int::new(0, 0).sq_magnitude(), 0);
}

#[test]
fn vec2int_arithmetic() {
    let a = Vec2Int::new(7, -3);
    let b = Vec2Int::new(2, 5);
    assert_eq!(a.add(b), Vec2Int::new(9, 2));
    assert_eq!(a.sub(b), Vec2Int::new(5, -8));
    assert_eq!(a.neg(), Vec2Int::new(-7, 3));
    assert_eq!(a.mul(3), Vec2Int::new(21, -9));
    assert_eq!(a.div(2), Vec2Int::new(3, -1));
    assert_eq!(Vec2Int::new(-7, 7).div(-2), Vec2Int::new(3, -3));
    assert_eq!(a.add_direction(Direction::South), Vec2Int::new(7, -2));
    assert_eq!(a.sub_direction(Direction::East), Vec2Int::new(6, -3));
}

#[test]
fn vec2int_subtraction_identity() {
    let pairs = [
        (Vec2Int::new(7, -3), Vec2Int::new(2, 5)),
        (Vec2Int::new(0, 0), Vec2Int::new(-9, 9)),
        (Vec2Int::new(i32::MAX, -100), Vec2Int::new(1, -100)),
    ];
    for (a, b) in pairs {
        assert_eq!(a.sub(b), a.neg().add(b).neg());
    }
}

#[test]
fn vec2int_assign_ops() {
    let mut v = Vec2Int::new(1, 2);
    v.add_assign(Vec2Int::new(3, 4));
    assert_eq!(v, Vec2Int::new(4, 6));
    v.sub_assign(Vec2Int::new(1, 1));
    assert_eq!(v, Vec2Int::new(3, 5));
    v.mul_assign(-2);
    assert_eq!(v, Vec2Int::new(-6, -10));
    v.div_assign(4);
    assert_eq!(v, Vec2Int::new(-1, -2));
}

#[test]
fn vec2int_tuples_and_default() {
    let v: Vec2Int = (3, -4).into();
    assert_eq!(v, Vec2Int::new(3, -4));
    let t: (i32, i32) = v.into();
    assert_eq!(t, (3, -4));
    assert!(v.eq_tuple(&(3, -4)));
    assert!(!v.eq_tuple(&(-4, 3)));
    assert_eq!(Vec2Int::default(), Vec2Int::new(0, 0));
}

#[test]
fn vec3int_operations() {
    let a = Vec3Int::new(1, 2, 2);
    let b = Vec3Int::new(-1, 0, 5);
    assert_eq!(a.sq_magnitude(), 9);
    assert_eq!(a.sq_dist(b), 4 + 4 + 9);
    assert_eq!(a.add(b), Vec3Int::new(0, 2, 7));
    assert_eq!(a.sub(b), Vec3Int::new(2, 2, -3));
    assert_eq!(a.sub(b), a.neg().add(b).neg());
    assert_eq!(a.neg(), Vec3Int::new(-1, -2, -2));
    assert_eq!(a.mul(-3), Vec3Int::new(-3, -6, -6));
    assert_eq!(Vec3Int::new(-7, 7, 8).div(2), Vec3Int::new(-3, 3, 4));
    let mut c = a;
    c.add_assign(b);
    c.sub_assign(b);
    c.mul_assign(4);
    c.div_assign(2);
    assert_eq!(c, Vec3Int::new(2, 4, 4));
    let d: Vec3Int = (1, 2, 3).into();
    let t: (i32, i32, i32) = d.into();
    assert_eq!(t, (1, 2, 3));
    assert!(d.eq_tuple(&(1, 2, 3)));
    assert_eq!(Vec3Int::default(), Vec3Int::new(0, 0, 0));
}
