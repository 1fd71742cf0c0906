use pacman::{Collider, Direction, GameObject, Player, Rect, Transform, overlaps};

fn rect(x: i64, y: i64, w: i64, h: i64) -> Transform {
    Transform {
        x,
        y,
        direction: Direction::Up,
        width: w,
        height: h,
        velocity_x: 0,
        velocity_y: 0,
    }
}

// Coordinates are in thousandths of a world unit: a unit square is 1000 wide.

#[test]
fn overlap_is_symmetric() {
    let pairs = [
        (rect(0, 0, 2000, 2000), rect(1000, 1000, 2000, 2000)),
        (rect(0, 0, 1000, 1000), rect(1000, 0, 1000, 1000)),
        (rect(-500, -500, 3000, 100), rect(200, -700, 50, 5000)),
        (rect(0, 0, 0, 0), rect(0, 0, 1000, 1000)),
    ];
    for (a, b) in pairs.iter() {
        assert_eq!(overlaps(a, b), overlaps(b, a));
    }
}

#[test]
fn edge_touching_does_not_overlap() {
    let a = rect(0, 0, 1000, 1000);
    let b = rect(1000, 0, 1000, 1000);
    assert!(!overlaps(&a, &b));
    assert!(!overlaps(&b, &a));
}

#[test]
fn true_overlap_is_detected() {
    let a = rect(0, 0, 2000, 2000);
    let b = rect(1000, 1000, 2000, 2000);
    assert!(overlaps(&a, &b));
}

#[test]
fn self_overlap_needs_positive_extent() {
    assert!(overlaps(&rect(5, 5, 1000, 1000), &rect(5, 5, 1000, 1000)));
    assert!(!overlaps(&rect(5, 5, 0, 1000), &rect(5, 5, 0, 1000)));
}

#[test]
fn collider_intersects_matches_overlaps() {
    let p = Player::new();
    let here = p.transform;
    let near = rect(here.x + 10_000, here.y + 10_000, 20_000, 20_000);
    let far = rect(here.x + 500_000, here.y, 20_000, 20_000);
    assert!(p.intersects(&near));
    assert!(!p.intersects(&far));
}

#[test]
fn collider_collide_tests_both_objects() {
    let a = Player::new();
    let b = Player::new();
    assert!(a.collide(&b));
    let mut c = Player::new();
    c.transform.x += 1_000_000;
    assert!(!a.collide(&c));
}

#[test]
fn rect_accessors_give_edges() {
    let t = rect(100, 200, 300, 400);
    assert_eq!(t.x(), 100);
    assert_eq!(t.y(), 200);
    assert_eq!(t.w(), 300);
    assert_eq!(t.h(), 400);
    assert_eq!(t.xw(), 400);
    assert_eq!(t.yh(), 600);
    let p = Player::new();
    assert_eq!(GameObject::get_transform(&p).x, p.transform.x);
}
