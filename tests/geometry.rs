use cat_box::rect::{MAX_POSITION, MAX_SIZE, MIN_POSITION};
use cat_box::{Rect, Sprite, SpriteCollection, Vec2Int};

#[test]
fn rect_new_clamps() {
    let r = Rect::new(3, -4, 0, 7);
    assert_eq!((r.x(), r.y(), r.width(), r.height()), (3, -4, 1, 7));
    let big = Rect::new(i32::MAX, i32::MIN, u32::MAX, 5);
    assert_eq!(big.x(), MAX_POSITION);
    assert_eq!(big.y(), MIN_POSITION);
    assert_eq!(big.width(), MAX_SIZE);
}

#[test]
fn rect_from_center_and_center() {
    let r = Rect::from_center(Vec2Int::new(0, 0), 10, 10);
    assert_eq!((r.x(), r.y()), (-5, -5));
    assert_eq!(r.center(), Vec2Int::new(0, 0));
    let odd = Rect::from_center(Vec2Int::new(10, 10), 5, 3);
    assert_eq!((odd.x(), odd.y()), (8, 9));
    assert_eq!(odd.center(), Vec2Int::new(10, 10));
}

#[test]
fn rect_set_and_center_on() {
    let mut r = Rect::new(0, 0, 4, 6);
    r.set_x(10);
    r.set_y(-20);
    assert_eq!((r.x(), r.y()), (10, -20));
    r.center_on(Vec2Int::new(100, 100));
    assert_eq!((r.x(), r.y()), (98, 97));
    assert_eq!((r.width(), r.height()), (4, 6));
}

#[test]
fn rect_overlap_includes_edges() {
    let a = Rect::new(0, 0, 5, 5);
    assert!(a.overlaps(&a));
    assert!(a.overlaps(&Rect::new(2, 2, 5, 5)));
    assert!(a.overlaps(&Rect::new(5, 0, 5, 5)));
    assert!(a.overlaps(&Rect::new(5, 5, 5, 5)));
    assert!(!a.overlaps(&Rect::new(6, 0, 5, 5)));
    assert!(!a.overlaps(&Rect::new(0, -7, 5, 5)));
}

#[test]
fn translate_inverts_y() {
    let mut s = Sprite::new(0, 0, 10, 10);
    let (x0, y0) = (s.rect.x(), s.rect.y());
    s.translate(Vec2Int::new(3, -4));
    assert_eq!(s.rect.x(), x0 + 3);
    assert_eq!(s.rect.y(), y0 + 4);
    assert_eq!(s.position(), Vec2Int::new(3, 4));
}

#[test]
fn sprite_moves() {
    let mut s = Sprite::new(50, 50, 10, 20);
    assert_eq!(s.position(), Vec2Int::new(50, 50));
    s.up(5);
    assert_eq!(s.position(), Vec2Int::new(50, 45));
    s.down(15);
    assert_eq!(s.position(), Vec2Int::new(50, 60));
    s.left(20);
    assert_eq!(s.position(), Vec2Int::new(30, 60));
    s.right(1);
    assert_eq!(s.position(), Vec2Int::new(31, 60));
    s.set_position(Vec2Int::new(-7, 8));
    assert_eq!(s.position(), Vec2Int::new(-7, 8));
    assert_eq!((s.rect.width(), s.rect.height()), (10, 20));
}

#[test]
fn sprite_moves_clamp_at_bounds() {
    let mut s = Sprite::new(0, 0, 2, 2);
    s.right(i32::MAX);
    assert_eq!(s.rect.x(), MAX_POSITION);
    s.down(i32::MIN);
    assert_eq!(s.rect.y(), MIN_POSITION);
}

#[test]
fn collection_operations() {
    let a = Sprite::new(0, 0, 2, 2);
    let b = Sprite::new(10, 0, 2, 2);
    let c = Sprite::new(20, 0, 2, 2);
    let mut coll = SpriteCollection::new();
    assert!(coll.is_empty());
    coll.push(a);
    coll.push(c);
    coll.insert(b, 1);
    assert_eq!(coll.len(), 3);
    assert_eq!(coll.get(1), Some(&b));
    assert_eq!(coll.get(3), None);
    assert_eq!(coll.remove(0), a);
    assert_eq!(coll.inner(), &vec![b, c]);
    assert_eq!(coll.pop(), Some(c));
    assert_eq!(coll.len(), 1);
    for s in coll.iter() {
        s.translate(Vec2Int::new(1, 0));
    }
    assert_eq!(coll.get(0).unwrap().position(), Vec2Int::new(11, 0));
    let mut other = SpriteCollection::with_capacity(4);
    other.push(a);
    other.push(a);
    coll.concat(other);
    assert_eq!(coll.len(), 3);
    assert_eq!(coll.get(2), Some(&a));
    coll.clear();
    assert!(coll.is_empty());
    assert_eq!(coll.pop(), None);
    assert!(SpriteCollection::default().is_empty());
}
