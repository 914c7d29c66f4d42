use cat_box::{
    check_for_collision, check_for_collision_with_collection, check_for_collision_with_point,
    Sprite, SpriteCollection, Vec2Int,
};

#[test]
fn overlapping_boxes_collide() {
    let a = Sprite::new(0, 0, 10, 10);
    let b = Sprite::new(5, 5, 10, 10);
    assert!(check_for_collision(&a, &b));
}

#[test]
fn distant_boxes_do_not_collide() {
    let a = Sprite::new(0, 0, 10, 10);
    let b = Sprite::new(100, 100, 10, 10);
    assert!(!check_for_collision(&a, &b));
}

#[test]
fn touching_edges_collide() {
    let a = Sprite::new(0, 0, 10, 10);
    let b = Sprite::new(10, 0, 10, 10);
    assert!(check_for_collision(&a, &b));
    let c = Sprite::new(11, 0, 10, 10);
    assert!(!check_for_collision(&a, &c));
}

#[test]
fn collision_is_symmetric() {
    let sprites = [
        Sprite::new(0, 0, 10, 10),
        Sprite::new(5, 5, 10, 10),
        Sprite::new(12, -3, 4, 30),
        Sprite::new(100, 100, 10, 10),
    ];
    for a in &sprites {
        for b in &sprites {
            assert_eq!(check_for_collision(a, b), check_for_collision(b, a));
        }
    }
}

#[test]
fn same_center_always_collides() {
    let a = Sprite::new(40, -40, 1, 1);
    let b = Sprite::new(40, -40, 300, 2);
    assert!(check_for_collision(&a, &b));
    assert!(check_for_collision(&a, &a));
}

#[test]
fn beyond_radius_sum_never_collides() {
    let a = Sprite::new(0, 0, 10, 4);
    let b = Sprite::new(0, 21, 6, 10);
    assert!(!check_for_collision(&a, &b));
    let c = Sprite::new(-21, 0, 10, 10);
    assert!(!check_for_collision(&a, &c));
}

#[test]
fn point_collision_uses_radius() {
    let s = Sprite::new(0, 0, 10, 4);
    assert!(check_for_collision_with_point(&s, &Vec2Int::new(0, 0)));
    assert!(check_for_collision_with_point(&s, &Vec2Int::new(10, -10)));
    assert!(!check_for_collision_with_point(&s, &Vec2Int::new(11, 0)));
    assert!(!check_for_collision_with_point(&s, &Vec2Int::new(0, -11)));
}

#[test]
fn empty_collection_has_no_collision() {
    let s = Sprite::new(0, 0, 10, 10);
    let coll = SpriteCollection::new();
    assert!(check_for_collision_with_collection(&s, &coll).is_empty());
}

#[test]
fn collection_collisions_in_order() {
    let s = Sprite::new(0, 0, 10, 10);
    let near1 = Sprite::new(5, 5, 10, 10);
    let far = Sprite::new(100, 100, 10, 10);
    let near2 = Sprite::new(-8, 0, 10, 10);
    let mut coll = SpriteCollection::new();
    coll.push(near1);
    coll.push(far);
    coll.push(s);
    coll.push(near2);
    let hits = check_for_collision_with_collection(&s, &coll);
    assert_eq!(hits, vec![&near1, &s, &near2]);
}
