//! Vectors, axis-aligned rectangles and the overlap test between rectangles.

use vstd::prelude::*;

verus! {

/// A point or an extent in the plane, in subunits.
#[derive(Clone, Copy, Debug, PartialEq, Eq, Structural)]
pub struct Vector {
    pub x: i32,
    pub y: i32,
}

/// An axis-aligned rectangle, given by its centre and its width and height.
#[derive(Clone, Copy, Debug, PartialEq, Eq, Structural)]
pub struct Rect {
    pub center: Vector,
    pub size: Vector,
}

/// The side of the second rectangle that the first one has hit.
#[derive(Clone, Copy, Debug, PartialEq, Eq, Structural)]
pub enum Collision {
    Left,
    Right,
    Top,
    Bottom,
    Inside,
}

impl Rect {
    /// Twice the x coordinate of the left edge. Edges are doubled so that half
    /// an odd extent needs no fraction.
    pub open spec fn left(self) -> int {
        2 * self.center.x - self.size.x
    }

    /// Twice the x coordinate of the right edge.
    pub open spec fn right(self) -> int {
        2 * self.center.x + self.size.x
    }

    /// Twice the y coordinate of the bottom edge.
    pub open spec fn bottom(self) -> int {
        2 * self.center.y - self.size.y
    }

    /// Twice the y coordinate of the top edge.
    pub open spec fn top(self) -> int {
        2 * self.center.y + self.size.y
    }
}

/// Whether the interiors of two rectangles meet. Rectangles that only touch
/// along an edge or at a corner do not overlap.
pub open spec fn overlaps(a: Rect, b: Rect) -> bool {
    &&& a.left() < b.right()
    &&& a.right() > b.left()
    &&& a.bottom() < b.top()
    &&& a.top() > b.bottom()
}

/// How the first of two intervals lies against the second: the two are the
/// shadows of two rectangles on one axis, in doubled coordinates.
pub enum Reach {
    /// It sticks out past the low end only, and is this deep into the other.
    Low(int),
    /// It sticks out past the high end only, and is this deep into the other.
    High(int),
    /// It sticks out past both ends or past neither.
    Neither,
}

/// The reach of the interval from `a_low` to `a_high` against the one from
/// `b_low` to `b_high`.
pub open spec fn reach(a_low: int, a_high: int, b_low: int, b_high: int) -> Reach {
    if a_low < b_low && a_high > b_low && a_high < b_high {
        Reach::Low(a_high - b_low)
    } else if a_low > b_low && a_low < b_high && a_high > b_high {
        Reach::High(b_high - a_low)
    } else {
        Reach::Neither
    }
}

impl Reach {
    /// How deep the reach is; nothing for `Neither`.
    pub open spec fn depth(self) -> Option<int> {
        match self {
            Reach::Low(d) => Some(d),
            Reach::High(d) => Some(d),
            Reach::Neither => None,
        }
    }

    /// Whether this reach is strictly shallower than another. `Neither` is
    /// deeper than every depth and not shallower than itself.
    pub open spec fn shallower_than(self, other: Reach) -> bool {
        match (self.depth(), other.depth()) {
            (Some(d), Some(e)) => d < e,
            (Some(_), None) => true,
            (None, _) => false,
        }
    }
}

/// The side that a reach along the x axis names.
pub open spec fn x_side(r: Reach) -> Collision {
    match r {
        Reach::Low(_) => Collision::Left,
        Reach::High(_) => Collision::Right,
        Reach::Neither => Collision::Inside,
    }
}

/// The side that a reach along the y axis names.
pub open spec fn y_side(r: Reach) -> Collision {
    match r {
        Reach::Low(_) => Collision::Bottom,
        Reach::High(_) => Collision::Top,
        Reach::Neither => Collision::Inside,
    }
}

/// The collision of rectangle `a` with rectangle `b`: none unless they
/// overlap; else the side of `b` on the axis along which `a` is in less deep,
/// and the horizontal side when it is equally deep along both.
pub open spec fn collision(a: Rect, b: Rect) -> Option<Collision> {
    if overlaps(a, b) {
        let across = reach(a.left(), a.right(), b.left(), b.right());
        let upward = reach(a.bottom(), a.top(), b.bottom(), b.top());
        if upward.shallower_than(across) {
            Some(y_side(upward))
        } else {
            Some(x_side(across))
        }
    } else {
        None
    }
}

/// Two rectangles overlap whichever of them is asked first.
pub proof fn lemma_overlap_symmetric(a: Rect, b: Rect)
    ensures
        overlaps(a, b) == overlaps(b, a),
        collision(a, b) is Some == collision(b, a) is Some,
{
}

/// A side is named only where the first rectangle sticks out of the second on
/// that side and not on the opposite one, and the two overlap whenever any
/// collision is reported.
pub proof fn lemma_side_is_where_it_sticks_out(a: Rect, b: Rect)
    ensures
        collision(a, b) is Some <==> overlaps(a, b),
        collision(a, b) == Some(Collision::Left) ==> a.left() < b.left() && a.right() < b.right(),
        collision(a, b) == Some(Collision::Right) ==> a.left() > b.left() && a.right() > b.right(),
        collision(a, b) == Some(Collision::Bottom) ==> a.bottom() < b.bottom() && a.top() < b.top(),
        collision(a, b) == Some(Collision::Top) ==> a.bottom() > b.bottom() && a.top() > b.top(),
{
}

/// A rectangle of positive extent overlaps itself, and sits inside itself.
pub proof fn lemma_overlap_reflexive(a: Rect)
    requires
        a.size.x > 0,
        a.size.y > 0,
    ensures
        collision(a, a) == Some(Collision::Inside),
{
}

/// Tests rectangle `a` against rectangle `b`, and names the side of `b` that
/// was hit.
pub fn collide(a: Rect, b: Rect) -> (hit: Option<Collision>)
    ensures
        hit == collision(a, b),
{
    let a_left: i64 = 2 * (a.center.x as i64) - (a.size.x as i64);
    let a_right: i64 = 2 * (a.center.x as i64) + (a.size.x as i64);
    let a_bottom: i64 = 2 * (a.center.y as i64) - (a.size.y as i64);
    let a_top: i64 = 2 * (a.center.y as i64) + (a.size.y as i64);
    let b_left: i64 = 2 * (b.center.x as i64) - (b.size.x as i64);
    let b_right: i64 = 2 * (b.center.x as i64) + (b.size.x as i64);
    let b_bottom: i64 = 2 * (b.center.y as i64) - (b.size.y as i64);
    let b_top: i64 = 2 * (b.center.y as i64) + (b.size.y as i64);

    if a_left < b_right && a_right > b_left && a_bottom < b_top && a_top > b_bottom {
        // A depth of zero stands for no side on that axis: a side is at
        // least one deep.
        let mut x_hit = Collision::Inside;
        let mut x_depth: i64 = 0;
        if a_left < b_left && a_right < b_right {
            x_hit = Collision::Left;
            x_depth = a_right - b_left;
        } else if a_left > b_left && a_right > b_right {
            x_hit = Collision::Right;
            x_depth = b_right - a_left;
        }
        let mut y_hit = Collision::Inside;
        let mut y_depth: i64 = 0;
        if a_bottom < b_bottom && a_top < b_top {
            y_hit = Collision::Bottom;
            y_depth = a_top - b_bottom;
        } else if a_bottom > b_bottom && a_top > b_top {
            y_hit = Collision::Top;
            y_depth = b_top - a_bottom;
        }
        if y_depth > 0 && (x_depth == 0 || y_depth < x_depth) {
            Some(y_hit)
        } else {
            Some(x_hit)
        }
    } else {
        None
    }
}

} // verus!
