//! A stick figure drawn as one run of lines.

use vstd::prelude::*;

verus! {

/// The greatest coordinate that a point made by `Point::new` has.
pub const MAX_POSITION: i32 = 0x3fff_ffff;

/// The least coordinate that a point made by `Point::new` has.
pub const MIN_POSITION: i32 = -0x4000_0000;

/// The coordinate in the range from `MIN_POSITION` to `MAX_POSITION` that is
/// nearest to `val`.
pub open spec fn clamp_position(val: i32) -> i32 {
    if val > MAX_POSITION {
        MAX_POSITION
    } else if val < MIN_POSITION {
        MIN_POSITION
    } else {
        val
    }
}

/// A position on a canvas, in pixels.
#[derive(Clone, Copy, PartialEq, Eq, Structural, Debug)]
pub struct Point {
    pub x: i32,
    pub y: i32,
}

impl Point {
    /// The point nearest to `(x, y)` whose coordinates leave room for a
    /// shape of the greatest width and height to start there.
    pub fn new(x: i32, y: i32) -> (r: Point)
        ensures
            r.x == clamp_position(x),
            r.y == clamp_position(y),
    {
        let x = if x > MAX_POSITION {
            MAX_POSITION
        } else if x < MIN_POSITION {
            MIN_POSITION
        } else {
            x
        };
        let y = if y > MAX_POSITION {
            MAX_POSITION
        } else if y < MIN_POSITION {
            MIN_POSITION
        } else {
            y
        };
        Point { x, y }
    }
}

/// A figure of six joints. `points` is the run of lines that draws it: each
/// point is joined to the next one, so the neck and the hip occur once for
/// every limb that ends there.
pub struct StickMan {
    pub points: [Point; 10],
}

impl StickMan {
    /// Whether the two arms end at one position, and the spine and the two
    /// legs at one position.
    pub open spec fn is_jointed(&self) -> bool {
        &&& self.points[1] == self.points[3]
        &&& self.points[5] == self.points[7]
        &&& self.points[7] == self.points[9]
    }

    pub fn new() -> (r: StickMan)
        ensures
            r.points@ == seq![
                Point { x: -10i32, y: 0 },
                Point { x: 10, y: 0 },
                Point { x: 40, y: 0 },
                Point { x: 10, y: 0 },
                Point { x: 10, y: 0 },
                Point { x: 10, y: 10 },
                Point { x: 0, y: 50 },
                Point { x: 10, y: 10 },
                Point { x: 20, y: 50 },
                Point { x: 10, y: 10 },
            ],
            r.is_jointed(),
    {
        let left_hand = Point::new(-10, 0);
        let right_hand = Point::new(40, 0);
        let neck = Point::new(10, 0);
        let hip = Point::new(10, 10);
        let left_foot = Point::new(0, 50);
        let right_foot = Point::new(20, 50);

        let r = StickMan {
            points: [
                left_hand,
                neck,
                right_hand,
                neck,
                neck,
                hip,
                left_foot,
                hip,
                right_foot,
                hip,
            ],
        };
        assert(r.points@ =~= seq![
            Point { x: -10i32, y: 0 },
            Point { x: 10, y: 0 },
            Point { x: 40, y: 0 },
            Point { x: 10, y: 0 },
            Point { x: 10, y: 0 },
            Point { x: 10, y: 10 },
            Point { x: 0, y: 50 },
            Point { x: 10, y: 10 },
            Point { x: 20, y: 50 },
            Point { x: 10, y: 10 },
        ]);
        r
    }

    pub fn set_left_hand(&mut self, p: Point)
        ensures
            final(self).points@ == old(self).points@.update(0, p),
            old(self).is_jointed() ==> final(self).is_jointed(),
    {
        self.points[0] = p;
    }

    pub fn set_right_hand(&mut self, p: Point)
        ensures
            final(self).points@ == old(self).points@.update(2, p),
            old(self).is_jointed() ==> final(self).is_jointed(),
    {
        self.points[2] = p;
    }

    /// Moves the end of the left arm and the end of the right arm. The upper
    /// end of the spine, the fifth point, stays where it is.
    pub fn set_neck(&mut self, p: Point)
        ensures
            final(self).points@ == old(self).points@.update(1, p).update(3, p),
            old(self).is_jointed() ==> final(self).is_jointed(),
    {
        self.points[1] = p;
        self.points[3] = p;
    }

    pub fn set_hip(&mut self, p: Point)
        ensures
            final(self).points@ == old(self).points@.update(5, p).update(7, p).update(9, p),
            old(self).is_jointed() ==> final(self).is_jointed(),
    {
        self.points[5] = p;
        self.points[7] = p;
        self.points[9] = p;
    }

    pub fn set_left_foot(&mut self, p: Point)
        ensures
            final(self).points@ == old(self).points@.update(6, p),
            old(self).is_jointed() ==> final(self).is_jointed(),
    {
        self.points[6] = p;
    }

    pub fn set_right_foot(&mut self, p: Point)
        ensures
            final(self).points@ == old(self).points@.update(8, p),
            old(self).is_jointed() ==> final(self).is_jointed(),
    {
        self.points[8] = p;
    }

    /// The run of lines to draw, from the first point to the last.
    pub fn draw(&self) -> (r: &[Point; 10])
        ensures
            r@ == self.points@,
    {
        &self.points
    }
}

} // verus!
