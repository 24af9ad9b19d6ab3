//! The bouncing body as the runtime holds it, in machine integers.

use vstd::prelude::*;
use crate::geometry::{Point, Rectangle};
use crate::motion::Motion;

verus! {

/// The table's entries as mathematical integers.
pub open spec fn table_of(rand: Seq<i32>) -> Seq<int> {
    Seq::new(rand.len(), |i: int| rand[i] as int)
}

/// Half of `c`, rounded toward zero.
pub open spec fn half(c: int) -> int {
    if c >= 0 {
        c / 2
    } else {
        -((-c) / 2)
    }
}

/// The speeds that a new body takes in turn at its reflections.
pub open spec fn initial_table() -> Seq<i32> {
    seq![6i32, 2i32, 3i32, 5i32, 8i32, 3i32, 2i32, 4i32, 3i32, 8i32, 2i32]
}

/// The state in which a body of the given radius starts in the given arena:
/// at half the coordinates of the arena's bottom right corner, which on an
/// arena that reaches down from the top strip of a display is the middle of
/// that display; moving by `(2, 3)` per step, with the cursor at the start of
/// the fixed table.
pub open spec fn initial_motion(radius: u32, bounds: Rectangle) -> Motion {
    Motion {
        position: (
            half(bounds.bottom_right.x as int),
            half(bounds.bottom_right.y as int),
        ),
        velocity: (2, 3),
        radius: radius as int,
        top_left: (bounds.top_left.x as int, bounds.top_left.y as int),
        bottom_right: (bounds.bottom_right.x as int, bounds.bottom_right.y as int),
        table: table_of(initial_table()),
        cursor: 0,
    }
}

/// A circular body moving inside a rectangular arena.
#[derive(Clone, Debug, PartialEq, Eq)]
pub struct Bounce {
    /// Displacement per step.
    pub vector: Point,
    pub radius: u32,
    pub bounds: Rectangle,
    /// Speeds taken in turn at each reflection.
    pub rand: Vec<i32>,
    /// Index into `rand` of the speed that the next reflection takes.
    pub rand_index: usize,
    /// Centre of the body.
    pub loc: Point,
}

impl View for Bounce {
    type V = Motion;

    open spec fn view(&self) -> Motion {
        Motion {
            position: (self.loc.x as int, self.loc.y as int),
            velocity: (self.vector.x as int, self.vector.y as int),
            radius: self.radius as int,
            top_left: (self.bounds.top_left.x as int, self.bounds.top_left.y as int),
            bottom_right: (self.bounds.bottom_right.x as int, self.bounds.bottom_right.y as int),
            table: table_of(self.rand@),
            cursor: self.rand_index as int,
        }
    }
}

/// A velocity component `v` that keeps every candidate within `i32` as long
/// as the coordinate it is added to lies in `[lo, hi]`.
pub open spec fn speed_fits(v: int, lo: int, hi: int) -> bool {
    i32::MIN <= lo + v && hi + v <= i32::MAX
}

/// Half of `c`, rounded toward zero.
fn half_of(c: i32) -> (h: i32)
    ensures
        h == half(c as int),
{
    if c >= 0 {
        c / 2
    } else {
        let wide: i64 = c as i64;
        (-((-wide) / 2)) as i32
    }
}

/// Whether `c` is a value of `i32`.
fn in_range(c: i64) -> (ok: bool)
    ensures
        ok == (i32::MIN <= c <= i32::MAX),
{
    -0x8000_0000 <= c && c <= 0x7fff_ffff
}

/// Whether the velocity component `v` fits the range `[lo, hi]`.
fn fits(v: i32, lo: i64, hi: i64) -> (ok: bool)
    requires
        -0x1_8000_0000 <= lo <= 0x1_8000_0000,
        -0x1_8000_0000 <= hi <= 0x1_8000_0000,
    ensures
        ok == speed_fits(v as int, lo as int, hi as int),
{
    let v: i64 = v as i64;
    -0x8000_0000 <= lo + v && hi + v <= 0x7fff_ffff
}

impl Bounce {
    /// The state is well formed, the table's speeds are not negative, and no
    /// step from this state, nor from any state that follows, leaves the range
    /// of `i32`: the next candidate lies within it, and so does every wall
    /// with the current velocity or any of the table's speeds added to it.
    pub open spec fn valid(&self) -> bool {
        let m = self@;
        &&& m.well_formed()
        &&& i32::MIN <= m.candidate().0 <= i32::MAX
        &&& i32::MIN <= m.candidate().1 <= i32::MAX
        &&& speed_fits(m.velocity.0, m.left(), m.right())
        &&& speed_fits(m.velocity.1, m.top(), m.bottom())
        &&& forall|i: int|
            0 <= i < self.rand@.len() ==> {
                &&& 0 <= #[trigger] self.rand@[i]
                &&& speed_fits(self.rand@[i] as int, m.left(), m.right())
                &&& speed_fits(-(self.rand@[i] as int), m.left(), m.right())
                &&& speed_fits(self.rand@[i] as int, m.top(), m.bottom())
                &&& speed_fits(-(self.rand@[i] as int), m.top(), m.bottom())
            }
    }

    /// A new body of this radius in this arena is valid: the arena leaves the
    /// centre a place on each axis, and every reflection at the table's
    /// greatest speed stays within `i32`.
    pub open spec fn admits(radius: u32, bounds: Rectangle) -> bool {
        let left = bounds.top_left.x + radius;
        let right = bounds.bottom_right.x - radius;
        let top = bounds.top_left.y + radius;
        let bottom = bounds.bottom_right.y - radius;
        &&& left <= right
        &&& top <= bottom
        &&& i32::MIN + 8 <= left
        &&& right + 8 <= i32::MAX
        &&& i32::MIN + 8 <= top
        &&& bottom + 8 <= i32::MAX
    }

    /// A body of the given radius in the given arena, at half the coordinates
    /// of the arena's bottom right corner, each rounded toward zero, moving by
    /// `(2, 3)` per step, with the cursor at the start of the fixed table of
    /// speeds.
    pub fn new(radius: u32, bounds: Rectangle) -> (b: Bounce)
        ensures
            b.vector == (Point { x: 2, y: 3 }),
            b.radius == radius,
            b.bounds == bounds,
            b.rand@ == initial_table(),
            b.rand_index == 0,
            b.loc.x == half(bounds.bottom_right.x as int),
            b.loc.y == half(bounds.bottom_right.y as int),
            b@ == initial_motion(radius, bounds),
            b.valid() <==> Self::admits(radius, bounds),
    {
        Bounce {
            vector: Point::new(2, 3),
            radius: radius,
            bounds: bounds,
            rand: vec![6, 2, 3, 5, 8, 3, 2, 4, 3, 8, 2],
            rand_index: 0,
            loc: Point::new(
                half_of(bounds.bottom_right.x),
                half_of(bounds.bottom_right.y),
            ),
        }
    }

    /// Whether the state is valid.
    pub fn is_valid(&self) -> (ok: bool)
        ensures
            ok == self.valid(),
    {
        let len: usize = self.rand.len();
        if self.rand_index >= len || self.radius > 0x7fff_ffff {
            return false;
        }
        let r: i64 = self.radius as i64;
        let left: i64 = self.bounds.top_left.x as i64 + r;
        let right: i64 = self.bounds.bottom_right.x as i64 - r;
        let top: i64 = self.bounds.top_left.y as i64 + r;
        let bottom: i64 = self.bounds.bottom_right.y as i64 - r;
        if left > right || top > bottom {
            return false;
        }
        let cx: i64 = self.loc.x as i64 + self.vector.x as i64;
        let cy: i64 = self.loc.y as i64 + self.vector.y as i64;
        if !in_range(cx) || !in_range(cy) {
            return false;
        }
        if !fits(self.vector.x, left, right) || !fits(self.vector.y, top, bottom) {
            return false;
        }
        let mut i: usize = 0;
        while i < len
            invariant
                i <= len,
                len == self.rand@.len(),
                left == self@.left(),
                right == self@.right(),
                top == self@.top(),
                bottom == self@.bottom(),
                forall|j: int|
                    0 <= j < i ==> {
                        &&& 0 <= #[trigger] self.rand@[j]
                        &&& speed_fits(self.rand@[j] as int, left as int, right as int)
                        &&& speed_fits(-(self.rand@[j] as int), left as int, right as int)
                        &&& speed_fits(self.rand@[j] as int, top as int, bottom as int)
                        &&& speed_fits(-(self.rand@[j] as int), top as int, bottom as int)
                    },
            decreases len - i,
        {
            let m: i32 = self.rand[i];
            if m < 0 || !fits(m, left, right) || !fits(-m, left, right) || !fits(m, top, bottom)
                || !fits(-m, top, bottom) {
                return false;
            }
            i += 1;
        }
        true
    }

    /// Advances the body by one step.
    pub fn update(&mut self) -> (ret: &mut Self)
        requires
            old(self).valid(),
        ensures
            ret@ == old(self)@.step(),
            ret.valid(),
            ret@.contained(),
            *final(self) == *final(ret),
        no_unwind
    {
        let cx: i32 = self.loc.x + self.vector.x;
        let cy: i32 = self.loc.y + self.vector.y;
        let mut x: i32 = cx;
        let mut y: i32 = cy;

        let r: i32 = self.radius as i32;
        let left: i32 = self.bounds.top_left.x + r;
        let right: i32 = self.bounds.bottom_right.x - r;
        let top: i32 = self.bounds.top_left.y + r;
        let bottom: i32 = self.bounds.bottom_right.y - r;
        if cx >= right || cx <= left || cy >= bottom || cy <= top {
            let speed: i32 = self.rand[self.rand_index];
            if cx >= right {
                self.vector.x = -speed;
                x = right;
            }
            if cx <= left {
                self.vector.x = speed;
                x = left;
            }
            if cy >= bottom {
                self.vector.y = -speed;
                y = bottom;
            }
            if cy <= top {
                self.vector.y = speed;
                y = top;
            }
            let len: usize = self.rand.len();
            self.rand_index += 1;
            self.rand_index = self.rand_index % len;
        }
        self.loc.x = x;
        self.loc.y = y;
        self
    }
}

} // verus!
