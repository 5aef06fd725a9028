use std::collections::HashSet;

use rust_rocks::collision::{remove_all, remove_collisions, Collidable};
use rust_rocks::component::{HitMask, Position};

const RADIUS: u32 = 30;
const DIAMETER: i32 = 2 * RADIUS as i32;

fn circle(x: i32, y: i32) -> Collidable {
    Collidable {
        position: Position { x, y },
        hitmask: HitMask::Circle { radius: RADIUS },
    }
}

fn point(x: i32, y: i32) -> Collidable {
    Collidable {
        position: Position { x, y },
        hitmask: HitMask::Point,
    }
}

#[test]
fn test_remove_collisions() {
    let mut circles = vec![
        circle(100 - DIAMETER, 100 - DIAMETER),
        circle(100, 100),
        circle(100 + DIAMETER, 100 + DIAMETER),
    ];

    let mut points = vec![
        point(100 - DIAMETER, 100 - DIAMETER),
        point(100 - DIAMETER, 100 - DIAMETER),
        point(100 + DIAMETER, 100 + DIAMETER),
        point(100 + DIAMETER, 100 + DIAMETER),
    ];

    remove_collisions(&mut circles, &mut points);

    assert_eq!(
        vec![circle(100, 100)],
        circles,
        "The two circles colliding with points should have been removed"
    );
    assert_eq!(
        true,
        points.is_empty(),
        "All points collided with circles and should have been removed"
    );
}

#[test]
fn test_remove_collisions_between_circle_and_points() {
    let x = 100;
    let y = 100;
    let r = RADIUS as i32;
    let mut circles = vec![circle(x, y)];
    let mut points = vec![
        // In collision (within or on the edge of the circle)
        point(x, y),
        point(x - r, y),
        point(x + r, y),
        point(x, y - r),
        point(x, y + r),
        // Not in collision (on the corners of a square outside the circle)
        point(x - r, y - r),
        point(x - r, y + r),
        point(x + r, y - r),
        point(x + r, y + r),
    ];

    remove_collisions(&mut circles, &mut points);

    assert_eq!(
        true,
        circles.is_empty(),
        "The circle was in collision and should be removed"
    );
    assert_eq!(
        vec![
            point(x - r, y - r),
            point(x - r, y + r),
            point(x + r, y - r),
            point(x + r, y + r),
        ],
        points,
        "Only four points did not collide and should remain"
    );
}

#[test]
fn paired_removal_counts() {
    let p = 100;
    let mut circles = vec![circle(p - DIAMETER, p), circle(p, p), circle(p + DIAMETER, p)];
    let mut points = vec![
        point(p - DIAMETER, p),
        point(p - DIAMETER, p),
        point(p + DIAMETER, p),
        point(p + DIAMETER, p),
    ];
    let removed = remove_collisions(&mut circles, &mut points);
    assert_eq!((2, 4), removed);
    assert_eq!(vec![circle(p, p)], circles);
    assert!(points.is_empty());
}

#[test]
fn corners_miss_and_edges_hit() {
    let c = circle(100, 100);
    let r = RADIUS as i32;
    for (dx, dy) in [(-r, -r), (-r, r), (r, -r), (r, r)] {
        let p = point(100 + dx, 100 + dy);
        assert!(!c.is_collision(&p));
        assert!(!p.is_collision(&c));
    }
    for (dx, dy) in [(-r, 0), (r, 0), (0, -r), (0, r)] {
        let p = point(100 + dx, 100 + dy);
        assert!(c.is_collision(&p));
        assert!(p.is_collision(&c));
    }
}

#[test]
fn collision_boundary_is_inclusive() {
    let c = circle(0, 0);
    let r = RADIUS as i32;
    assert!(c.is_collision(&point(r, 0)));
    assert!(!c.is_collision(&point(r + 1, 0)));
    // 18² + 24² = 30²: on the edge, off the axes
    assert!(c.is_collision(&point(18, 24)));
    assert!(!c.is_collision(&point(18, 25)));
}

#[test]
fn collision_is_symmetric() {
    for x in -40..=40 {
        let c = circle(0, 0);
        let p = point(x, 7);
        assert_eq!(c.is_collision(&p), p.is_collision(&c));
    }
}

#[test]
fn removal_is_by_slot_not_by_value() {
    let c0 = circle(0, 0);
    let c1 = circle(0, 0);
    let mut circles = vec![c0, c1];
    let mut hit = HashSet::new();
    hit.insert(0usize);
    remove_all(&mut circles, &hit);
    assert_eq!(1, circles.len());
    assert_eq!(vec![c1], circles);
}

#[test]
fn removal_keeps_order_of_unmarked_slots() {
    let mut values = vec![10, 11, 12, 13, 14, 15];
    let marks: HashSet<usize> = [1usize, 4, 9].into_iter().collect();
    remove_all(&mut values, &marks);
    assert_eq!(vec![10, 12, 13, 15], values);
}

#[test]
fn same_group_collisions_are_ignored() {
    let mut circles = vec![circle(0, 0), circle(0, 0)];
    let mut points = vec![point(500, 500), point(500, 500)];
    assert_eq!((0, 0), remove_collisions(&mut circles, &mut points));
    assert_eq!(2, circles.len());
    assert_eq!(2, points.len());
}
