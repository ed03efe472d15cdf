//! The things the game is made of: the snake, the walls and the food it can
//! run into, the collision events, and the state that holds them all.

use vstd::prelude::*;
use crate::geometry::{Rect, Vector};
use crate::units::{
    subunits, to_subunits, BOTTOM_WALL, FOOD_HEIGHT, FOOD_WIDTH, LEFT_WALL, RIGHT_WALL,
    SNAKE_HEIGHT, SNAKE_SPEED, SNAKE_WIDTH, TOP_WALL,
};
use crate::walls::the_walls;

verus! {

/// A velocity in the plane, in units per second.
#[derive(Clone, Copy, Debug, PartialEq, Eq, Structural)]
pub struct Velocity {
    pub x: i32,
    pub y: i32,
}

impl Velocity {
    /// Whether neither component is faster than the snake's speed.
    pub open spec fn within_limit(self) -> bool {
        &&& -SNAKE_SPEED <= self.x <= SNAKE_SPEED
        &&& -SNAKE_SPEED <= self.y <= SNAKE_SPEED
    }

    /// Tests `within_limit`.
    pub fn is_within_limit(&self) -> (b: bool)
        ensures
            b == self.within_limit(),
    {
        -SNAKE_SPEED <= self.x && self.x <= SNAKE_SPEED && -SNAKE_SPEED <= self.y && self.y
            <= SNAKE_SPEED
    }
}

/// The player: a rectangle of fixed extent with a position and a velocity.
#[derive(Clone, Copy, Debug, PartialEq, Eq, Structural)]
pub struct Snake {
    /// The centre of the snake, in subunits.
    pub position: Vector,
    pub velocity: Velocity,
}

/// The extent of the snake.
pub open spec fn snake_size() -> Vector {
    Vector { x: subunits(SNAKE_WIDTH as int) as i32, y: subunits(SNAKE_HEIGHT as int) as i32 }
}

/// The extent of a piece of food.
pub open spec fn food_size() -> Vector {
    Vector { x: subunits(FOOD_WIDTH as int) as i32, y: subunits(FOOD_HEIGHT as int) as i32 }
}

impl Snake {
    /// The rectangle that the snake covers.
    pub open spec fn rect(self) -> Rect {
        Rect { center: self.position, size: snake_size() }
    }

    /// The rectangle that the snake covers.
    pub fn bounding_rect(&self) -> (r: Rect)
        ensures
            r == self.rect(),
    {
        Rect {
            center: self.position,
            size: Vector { x: to_subunits(SNAKE_WIDTH), y: to_subunits(SNAKE_HEIGHT) },
        }
    }
}

/// What a collider is.
#[derive(Clone, Copy, Debug, PartialEq, Eq, Structural)]
pub enum ColliderKind {
    Wall,
    Food,
}

/// A rectangle that the snake is tested against on every tick.
#[derive(Clone, Copy, Debug, PartialEq, Eq, Structural)]
pub struct Collider {
    pub kind: ColliderKind,
    pub rect: Rect,
}

/// The piece of food centred at `position`.
pub open spec fn food_at(position: Vector) -> Collider {
    Collider { kind: ColliderKind::Food, rect: Rect { center: position, size: food_size() } }
}

/// Whether a position lies in the range from which new food is drawn: from
/// wall line to wall line on each axis, the lower line included and the upper
/// one not.
pub open spec fn in_arena(position: Vector) -> bool {
    &&& subunits(LEFT_WALL as int) <= position.x < subunits(RIGHT_WALL as int)
    &&& subunits(BOTTOM_WALL as int) <= position.y < subunits(TOP_WALL as int)
}

/// Whether a collider is a piece of food of the right extent, placed in the
/// arena.
pub open spec fn is_fresh_food(c: Collider) -> bool {
    exists|position: Vector| in_arena(position) && c == #[trigger] food_at(position)
}

impl Collider {
    /// Makes the piece of food centred at `position`.
    pub fn food(position: Vector) -> (c: Collider)
        ensures
            c == food_at(position),
    {
        Collider {
            kind: ColliderKind::Food,
            rect: Rect {
                center: position,
                size: Vector { x: to_subunits(FOOD_WIDTH), y: to_subunits(FOOD_HEIGHT) },
            },
        }
    }
}

/// The notice that the snake has run into a collider. It carries nothing.
#[derive(Clone, Copy, Debug, PartialEq, Eq, Structural)]
pub struct CollisionEvent;

/// The whole state of a game.
#[derive(Debug)]
pub struct Game {
    pub snake: Snake,
    /// The walls and the food, in the order in which they were spawned.
    pub colliders: Vec<Collider>,
    /// The collisions reported so far and not yet taken out, oldest first.
    pub events: Vec<CollisionEvent>,
}

/// Tells the pieces of food from the other colliders.
pub open spec fn is_food() -> spec_fn(Collider) -> bool {
    |c: Collider| c.kind == ColliderKind::Food
}

/// Tells the walls from the other colliders.
pub open spec fn is_wall() -> spec_fn(Collider) -> bool {
    |c: Collider| c.kind == ColliderKind::Wall
}

/// The number of pieces of food among some colliders.
#[verifier::opaque]
pub open spec fn food_count(colliders: Seq<Collider>) -> nat {
    colliders.filter(is_food()).len()
}

/// The walls among some colliders, in order.
#[verifier::opaque]
pub open spec fn walls_of(colliders: Seq<Collider>) -> Seq<Collider> {
    colliders.filter(is_wall())
}

/// Whether every piece of food among some colliders is of the right extent
/// and lies in the arena.
pub open spec fn all_food_fresh(colliders: Seq<Collider>) -> bool {
    forall|i: int|
        0 <= i < colliders.len() && colliders[i].kind == ColliderKind::Food ==> is_fresh_food(
            #[trigger] colliders[i],
        )
}

impl Game {
    /// What holds of a game between any two steps: the snake is no faster than
    /// its speed, there is exactly one piece of food, it is of the right extent
    /// and lies in the arena, and the walls are the four walls of the arena.
    pub open spec fn wf(self) -> bool {
        &&& self.snake.velocity.within_limit()
        &&& food_count(self.colliders@) == 1
        &&& all_food_fresh(self.colliders@)
        &&& walls_of(self.colliders@) == the_walls()
    }
}

} // verus!
