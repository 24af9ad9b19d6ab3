//! The mathematical model of the bouncing body: a point moving on the integer
//! grid inside a rectangle, reflected at the walls with a speed drawn from a
//! fixed table.

use vstd::prelude::*;

verus! {

/// The coordinate `c` brought back into `[lo, hi]`.
pub open spec fn clamp(c: int, lo: int, hi: int) -> int {
    if c <= lo {
        lo
    } else if c >= hi {
        hi
    } else {
        c
    }
}

/// The velocity on one axis after a step in which some wall was reached:
/// speed `m` away from the wall that `c` reached, or `v` unchanged where it
/// reached none on this axis.
pub open spec fn rebound(c: int, v: int, lo: int, hi: int, m: int) -> int {
    if c <= lo {
        m
    } else if c >= hi {
        -m
    } else {
        v
    }
}

/// State of the body as plain mathematical values.
pub struct Motion {
    pub position: (int, int),
    pub velocity: (int, int),
    pub radius: int,
    pub top_left: (int, int),
    pub bottom_right: (int, int),
    /// Speeds taken in turn at each reflection.
    pub table: Seq<int>,
    /// Index of the speed that the next reflection takes.
    pub cursor: int,
}

impl Motion {
    /// Least x that the centre may take: the left wall moved in by the radius.
    pub open spec fn left(self) -> int {
        self.top_left.0 + self.radius
    }

    /// Greatest x that the centre may take.
    pub open spec fn right(self) -> int {
        self.bottom_right.0 - self.radius
    }

    /// Least y that the centre may take.
    pub open spec fn top(self) -> int {
        self.top_left.1 + self.radius
    }

    /// Greatest y that the centre may take.
    pub open spec fn bottom(self) -> int {
        self.bottom_right.1 - self.radius
    }

    /// The cursor points into the table, and the arena leaves the centre at
    /// least one place on each axis.
    pub open spec fn well_formed(self) -> bool {
        &&& 0 <= self.cursor < self.table.len()
        &&& 0 <= self.radius
        &&& self.left() <= self.right()
        &&& self.top() <= self.bottom()
    }

    /// The centre lies within the arena moved in by the radius.
    pub open spec fn contained(self) -> bool {
        &&& self.left() <= self.position.0 <= self.right()
        &&& self.top() <= self.position.1 <= self.bottom()
    }

    /// Where the body would be after one step if there were no walls.
    pub open spec fn candidate(self) -> (int, int) {
        (self.position.0 + self.velocity.0, self.position.1 + self.velocity.1)
    }

    /// The candidate reaches or passes the left or the right wall.
    pub open spec fn hits_x(self) -> bool {
        self.candidate().0 <= self.left() || self.candidate().0 >= self.right()
    }

    /// The candidate reaches or passes the top or the bottom wall.
    pub open spec fn hits_y(self) -> bool {
        self.candidate().1 <= self.top() || self.candidate().1 >= self.bottom()
    }

    /// The next step is a reflection.
    pub open spec fn hits(self) -> bool {
        self.hits_x() || self.hits_y()
    }

    /// The speed that the next reflection takes.
    pub open spec fn speed(self) -> int {
        self.table[self.cursor]
    }

    /// The state after one step. Without a reflection the candidate is
    /// taken as it is. With one, each axis on which a wall was reached gets
    /// the table's current speed, directed inward, and its coordinate set on
    /// that wall; the cursor then moves on by one place, round the table.
    pub open spec fn step(self) -> Motion {
        let (cx, cy) = self.candidate();
        if self.hits() {
            Motion {
                position: (
                    clamp(cx, self.left(), self.right()),
                    clamp(cy, self.top(), self.bottom()),
                ),
                velocity: (
                    rebound(cx, self.velocity.0, self.left(), self.right(), self.speed()),
                    rebound(cy, self.velocity.1, self.top(), self.bottom(), self.speed()),
                ),
                cursor: (self.cursor + 1) % (self.table.len() as int),
                ..self
            }
        } else {
            Motion { position: (cx, cy), ..self }
        }
    }

    /// The state after `n` steps.
    pub open spec fn run(self, n: nat) -> Motion
        decreases n,
    {
        if n == 0 {
            self
        } else {
            self.run((n - 1) as nat).step()
        }
    }

    /// How many of the first `n` steps are reflections.
    pub open spec fn reflections(self, n: nat) -> nat
        decreases n,
    {
        if n == 0 {
            0
        } else {
            let before = self.reflections((n - 1) as nat);
            if self.run((n - 1) as nat).hits() {
                before + 1
            } else {
                before
            }
        }
    }
}

} // verus!
