//! The four walls that enclose the arena.

use vstd::prelude::*;
use crate::entities::{Collider, ColliderKind};
use crate::geometry::{Rect, Vector};
use crate::units::{
    subunits, to_subunits, BOTTOM_WALL, LEFT_WALL, RIGHT_WALL, TOP_WALL, WALL_THICKNESS,
};

verus! {

/// Which side of the arena a wall is located on.
#[derive(Clone, Copy, Debug, PartialEq, Eq, Structural)]
pub enum WallLocation {
    Left,
    Right,
    Bottom,
    Top,
}

/// The centre of the wall on a side: on the wall's line, halfway along it.
pub open spec fn wall_position(location: WallLocation) -> Vector {
    match location {
        WallLocation::Left => Vector { x: subunits(LEFT_WALL as int) as i32, y: 0 },
        WallLocation::Right => Vector { x: subunits(RIGHT_WALL as int) as i32, y: 0 },
        WallLocation::Bottom => Vector { x: 0, y: subunits(BOTTOM_WALL as int) as i32 },
        WallLocation::Top => Vector { x: 0, y: subunits(TOP_WALL as int) as i32 },
    }
}

/// The extent of the wall on a side: as thick as a wall across, and along its
/// line as long as the arena and one thickness more, so that the walls meet
/// at the corners.
pub open spec fn wall_size(location: WallLocation) -> Vector {
    match location {
        WallLocation::Left | WallLocation::Right => Vector {
            x: subunits(WALL_THICKNESS as int) as i32,
            y: subunits(TOP_WALL - BOTTOM_WALL + WALL_THICKNESS) as i32,
        },
        WallLocation::Bottom | WallLocation::Top => Vector {
            x: subunits(RIGHT_WALL - LEFT_WALL + WALL_THICKNESS) as i32,
            y: subunits(WALL_THICKNESS as int) as i32,
        },
    }
}

/// The rectangle of the wall on a side.
pub open spec fn wall_rect(location: WallLocation) -> Rect {
    Rect { center: wall_position(location), size: wall_size(location) }
}

impl WallLocation {
    /// The centre of the wall on this side.
    pub fn position(&self) -> (p: Vector)
        ensures
            p == wall_position(*self),
    {
        match self {
            WallLocation::Left => Vector { x: to_subunits(LEFT_WALL), y: 0 },
            WallLocation::Right => Vector { x: to_subunits(RIGHT_WALL), y: 0 },
            WallLocation::Bottom => Vector { x: 0, y: to_subunits(BOTTOM_WALL) },
            WallLocation::Top => Vector { x: 0, y: to_subunits(TOP_WALL) },
        }
    }

    /// The extent of the wall on this side.
    pub fn size(&self) -> (s: Vector)
        ensures
            s == wall_size(*self),
    {
        let arena_height: i32 = TOP_WALL - BOTTOM_WALL;
        let arena_width: i32 = RIGHT_WALL - LEFT_WALL;

        // The arena has an inside only if the walls are set apart.
        assert(arena_height > 0);
        assert(arena_width > 0);

        match self {
            WallLocation::Left | WallLocation::Right => Vector {
                x: to_subunits(WALL_THICKNESS),
                y: to_subunits(arena_height + WALL_THICKNESS),
            },
            WallLocation::Bottom | WallLocation::Top => Vector {
                x: to_subunits(arena_width + WALL_THICKNESS),
                y: to_subunits(WALL_THICKNESS),
            },
        }
    }
}

/// What a wall is spawned from: its rectangle, and the kind of collider it
/// becomes.
#[derive(Clone, Copy, Debug, PartialEq, Eq, Structural)]
pub struct WallBundle {
    pub rect: Rect,
    pub collider: ColliderKind,
}

/// The collider that the wall on a side is.
pub open spec fn wall_at(location: WallLocation) -> Collider {
    Collider { kind: ColliderKind::Wall, rect: wall_rect(location) }
}

/// The four walls of the arena, in the order in which they are spawned.
pub open spec fn the_walls() -> Seq<Collider> {
    seq![
        wall_at(WallLocation::Left),
        wall_at(WallLocation::Right),
        wall_at(WallLocation::Bottom),
        wall_at(WallLocation::Top),
    ]
}

impl WallBundle {
    /// The collider that this bundle is spawned as.
    pub open spec fn as_collider(self) -> Collider {
        Collider { kind: self.collider, rect: self.rect }
    }

    /// Makes the wall on a side.
    pub fn new(location: WallLocation) -> (wall: WallBundle)
        ensures
            wall.as_collider() == wall_at(location),
    {
        WallBundle {
            rect: Rect { center: location.position(), size: location.size() },
            collider: ColliderKind::Wall,
        }
    }
}

/// Whether a rectangle covers the point whose doubled coordinates are `x2` and
/// `y2`, its edges included.
pub open spec fn covers(r: Rect, x2: int, y2: int) -> bool {
    &&& r.left() <= x2 <= r.right()
    &&& r.bottom() <= y2 <= r.top()
}

/// Whether the point lies on the border of the arena: no further than half
/// a wall's thickness outside the wall lines, and no further than that inside
/// them.
pub open spec fn on_border(x2: int, y2: int) -> bool {
    // Half a thickness, doubled as the coordinates are.
    let reach = subunits(WALL_THICKNESS as int);
    let left = 2 * subunits(LEFT_WALL as int);
    let right = 2 * subunits(RIGHT_WALL as int);
    let bottom = 2 * subunits(BOTTOM_WALL as int);
    let top = 2 * subunits(TOP_WALL as int);
    &&& left - reach <= x2 <= right + reach
    &&& bottom - reach <= y2 <= top + reach
    &&& !(left + reach < x2 < right - reach && bottom + reach < y2 < top - reach)
}

/// The four walls together cover the border of the arena, all of it and
/// nothing else. Only the four corner squares are covered twice.
pub proof fn lemma_walls_tile_border(x2: int, y2: int)
    ensures
        on_border(x2, y2) <==> {
            ||| covers(wall_rect(WallLocation::Left), x2, y2)
            ||| covers(wall_rect(WallLocation::Right), x2, y2)
            ||| covers(wall_rect(WallLocation::Bottom), x2, y2)
            ||| covers(wall_rect(WallLocation::Top), x2, y2)
        },
{
}

/// Walls on opposite sides share no point, and walls on adjoining sides share
/// the corner square where their lines cross and nothing else.
pub proof fn lemma_walls_meet_at_corners(x2: int, y2: int)
    ensures
        !(covers(wall_rect(WallLocation::Left), x2, y2) && covers(
            wall_rect(WallLocation::Right),
            x2,
            y2,
        )),
        !(covers(wall_rect(WallLocation::Bottom), x2, y2) && covers(
            wall_rect(WallLocation::Top),
            x2,
            y2,
        )),
        forall|upright: WallLocation, level: WallLocation|
            (upright == WallLocation::Left || upright == WallLocation::Right) && (level
                == WallLocation::Bottom || level == WallLocation::Top) ==> (covers(
                wall_rect(upright),
                x2,
                y2,
            ) && covers(wall_rect(level), x2, y2) <==> {
                let corner = Rect {
                    center: Vector { x: wall_position(upright).x, y: wall_position(level).y },
                    size: Vector { x: wall_size(upright).x, y: wall_size(level).y },
                };
                covers(corner, x2, y2)
            }),
{
}

/// Each wall reaches half a thickness to either side of its own line and
/// half a thickness past the two lines that it meets.
pub proof fn lemma_wall_edges(location: WallLocation)
    ensures
        wall_rect(location).left() == match location {
            WallLocation::Right => 2 * subunits(RIGHT_WALL as int),
            _ => 2 * subunits(LEFT_WALL as int),
        } - subunits(WALL_THICKNESS as int),
        wall_rect(location).right() == match location {
            WallLocation::Left => 2 * subunits(LEFT_WALL as int),
            _ => 2 * subunits(RIGHT_WALL as int),
        } + subunits(WALL_THICKNESS as int),
        wall_rect(location).bottom() == match location {
            WallLocation::Top => 2 * subunits(TOP_WALL as int),
            _ => 2 * subunits(BOTTOM_WALL as int),
        } - subunits(WALL_THICKNESS as int),
        wall_rect(location).top() == match location {
            WallLocation::Bottom => 2 * subunits(BOTTOM_WALL as int),
            _ => 2 * subunits(TOP_WALL as int),
        } + subunits(WALL_THICKNESS as int),
{
}

} // verus!
