use simple_gl::stickman::{Point, StickMan};

fn p(x: i32, y: i32) -> Point {
    Point::new(x, y)
}

#[test]
fn a_new_figure_stands_upright() {
    let man = StickMan::new();
    assert_eq!(
        man.points,
        [
            p(-10, 0),
            p(10, 0),
            p(40, 0),
            p(10, 0),
            p(10, 0),
            p(10, 10),
            p(0, 50),
            p(10, 10),
            p(20, 50),
            p(10, 10),
        ]
    );
}

#[test]
fn point_new_keeps_the_coordinates() {
    let q = Point::new(-3, 9);
    assert_eq!(q.x, -3);
    assert_eq!(q.y, 9);
}

#[test]
fn point_new_keeps_away_from_the_ends_of_the_number_range() {
    assert_eq!(Point::new(i32::MAX, i32::MIN), Point { x: i32::MAX / 2, y: i32::MIN / 2 });
    assert_eq!(Point::new(0x3fff_ffff, -0x4000_0000), Point { x: 0x3fff_ffff, y: -0x4000_0000 });
    assert_eq!(Point::new(0x4000_0000, -0x4000_0001), Point { x: 0x3fff_ffff, y: -0x4000_0000 });
}

#[test]
fn the_hands_move_one_point_each() {
    let mut man = StickMan::new();
    man.set_left_hand(p(1, 2));
    man.set_right_hand(p(3, 4));
    let fresh = StickMan::new();
    for i in 0..10 {
        match i {
            0 => assert_eq!(man.points[i], p(1, 2)),
            2 => assert_eq!(man.points[i], p(3, 4)),
            _ => assert_eq!(man.points[i], fresh.points[i]),
        }
    }
}

#[test]
fn the_neck_moves_the_ends_of_both_arms() {
    let mut man = StickMan::new();
    man.set_neck(p(7, 8));
    let fresh = StickMan::new();
    for i in 0..10 {
        match i {
            1 | 3 => assert_eq!(man.points[i], p(7, 8)),
            _ => assert_eq!(man.points[i], fresh.points[i]),
        }
    }
}

#[test]
fn the_hip_moves_the_ends_of_spine_and_legs() {
    let mut man = StickMan::new();
    man.set_hip(p(-5, 60));
    let fresh = StickMan::new();
    for i in 0..10 {
        match i {
            5 | 7 | 9 => assert_eq!(man.points[i], p(-5, 60)),
            _ => assert_eq!(man.points[i], fresh.points[i]),
        }
    }
}

#[test]
fn the_feet_move_one_point_each() {
    let mut man = StickMan::new();
    man.set_left_foot(p(11, 12));
    man.set_right_foot(p(13, 14));
    let fresh = StickMan::new();
    for i in 0..10 {
        match i {
            6 => assert_eq!(man.points[i], p(11, 12)),
            8 => assert_eq!(man.points[i], p(13, 14)),
            _ => assert_eq!(man.points[i], fresh.points[i]),
        }
    }
}

#[test]
fn draw_hands_out_the_run_of_lines() {
    let mut man = StickMan::new();
    man.set_neck(p(0, 0));
    let lines = man.draw();
    assert_eq!(lines.len(), 10);
    assert_eq!(lines, &man.points);
    assert_eq!(lines[1], p(0, 0));
}
