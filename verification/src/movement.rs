//! How the snake moves: steering by the keys that are held, the clamp that
//! keeps it inside the walls, and the drift by its velocity.

use vstd::prelude::*;
use crate::entities::{Game, Snake, Velocity};
use crate::geometry::{overlaps, Vector};
use crate::units::{
    shrunk, subunits, to_shrunk_subunits, to_subunits, BOTTOM_WALL, LEFT_WALL, RIGHT_WALL,
    SNAKE_HEIGHT, SNAKE_SPEED, SNAKE_WIDTH, TIME_STEP, TOP_WALL, WALL_THICKNESS,
};
use crate::walls::{wall_rect, WallLocation};

verus! {

/// The arrow keys that are held down during a tick.
#[derive(Clone, Copy, Debug, PartialEq, Eq, Structural)]
pub struct Keys {
    pub left: bool,
    pub right: bool,
    pub up: bool,
    pub down: bool,
}

/// The direction along the x axis that the keys ask for: -1, 0 or 1. Left and
/// right held together cancel.
pub open spec fn direction_x(keys: Keys) -> int {
    (if keys.right { 1int } else { 0int }) - (if keys.left { 1int } else { 0int })
}

/// The direction along the y axis that the keys ask for: -1, 0 or 1.
pub open spec fn direction_y(keys: Keys) -> int {
    (if keys.up { 1int } else { 0int }) - (if keys.down { 1int } else { 0int })
}

/// The least x that the snake's centre may have: the inner face of the left
/// wall's line, and the snake's width divided by 2.75 more.
pub open spec fn left_bound() -> int {
    subunits(LEFT_WALL + WALL_THICKNESS) + shrunk(SNAKE_WIDTH as int)
}

/// The greatest x that the snake's centre may have.
pub open spec fn right_bound() -> int {
    subunits(RIGHT_WALL - WALL_THICKNESS) - shrunk(SNAKE_WIDTH as int)
}

/// The least y that the snake's centre may have.
pub open spec fn bottom_bound() -> int {
    subunits(BOTTOM_WALL + WALL_THICKNESS) + shrunk(SNAKE_HEIGHT as int)
}

/// The greatest y that the snake's centre may have.
pub open spec fn top_bound() -> int {
    subunits(TOP_WALL - WALL_THICKNESS) - shrunk(SNAKE_HEIGHT as int)
}

/// Whether a position is one that the clamp lets the snake's centre have.
pub open spec fn in_bounds(position: Vector) -> bool {
    &&& left_bound() <= position.x <= right_bound()
    &&& bottom_bound() <= position.y <= top_bound()
}

/// `value`, or the nearer end of `low..=high` where it lies outside.
pub open spec fn clamped(value: int, low: int, high: int) -> int {
    if value < low {
        low
    } else if value > high {
        high
    } else {
        value
    }
}

/// The velocity after the keys were read: Left turns the x component round,
/// Down turns the y component round, Right and Up leave it as it is. A key that
/// is held turns it round again on every tick.
pub open spec fn steered(velocity: Velocity, keys: Keys) -> Velocity {
    Velocity {
        x: if keys.left { (-velocity.x) as i32 } else { velocity.x },
        y: if keys.down { (-velocity.y) as i32 } else { velocity.y },
    }
}

/// The snake after the keys were read: one tick at full speed in the direction
/// asked for, held back by the bounds. Its velocity plays no part in where it
/// goes.
pub open spec fn moved(snake: Snake, keys: Keys) -> Snake {
    Snake {
        position: Vector {
            x: clamped(
                snake.position.x + direction_x(keys) * SNAKE_SPEED * TIME_STEP,
                left_bound(),
                right_bound(),
            ) as i32,
            y: clamped(
                snake.position.y + direction_y(keys) * SNAKE_SPEED * TIME_STEP,
                bottom_bound(),
                top_bound(),
            ) as i32,
        },
        velocity: steered(snake.velocity, keys),
    }
}

/// The least and greatest coordinates that the clamp lets the snake's centre
/// have.
#[derive(Clone, Copy, Debug, PartialEq, Eq, Structural)]
pub struct Bounds {
    pub left: i32,
    pub right: i32,
    pub bottom: i32,
    pub top: i32,
}

impl Bounds {
    /// The bounds of the arena.
    pub fn of_arena() -> (b: Bounds)
        ensures
            b.left == left_bound(),
            b.right == right_bound(),
            b.bottom == bottom_bound(),
            b.top == top_bound(),
    {
        let inset_x: i32 = to_shrunk_subunits(SNAKE_WIDTH);
        let inset_y: i32 = to_shrunk_subunits(SNAKE_HEIGHT);
        Bounds {
            left: to_subunits(LEFT_WALL + WALL_THICKNESS) + inset_x,
            right: to_subunits(RIGHT_WALL - WALL_THICKNESS) - inset_x,
            bottom: to_subunits(BOTTOM_WALL + WALL_THICKNESS) + inset_y,
            top: to_subunits(TOP_WALL - WALL_THICKNESS) - inset_y,
        }
    }

    /// Whether `position` lies within these bounds, their ends included.
    pub fn contains(&self, position: Vector) -> (b: bool)
        ensures
            b == (self.left <= position.x <= self.right && self.bottom <= position.y
                <= self.top),
    {
        self.left <= position.x && position.x <= self.right && self.bottom <= position.y
            && position.y <= self.top
    }
}

/// `value` held to `low..=high`.
fn clamp(value: i64, low: i32, high: i32) -> (c: i32)
    requires
        low <= high,
    ensures
        c == clamped(value as int, low as int, high as int),
{
    if value < low as i64 {
        low
    } else if value > high as i64 {
        high
    } else {
        value as i32
    }
}

/// Reads the keys and moves the snake by them.
pub fn move_snake(game: &mut Game, keys: Keys)
    requires
        old(game).snake.velocity.within_limit(),
    ensures
        final(game).snake == moved(old(game).snake, keys),
        in_bounds(final(game).snake.position),
        final(game).snake.velocity.within_limit(),
        final(game).colliders == old(game).colliders,
        final(game).events == old(game).events,
        old(game).wf() ==> final(game).wf(),
{
    let mut direction_x: i64 = 0;
    let mut direction_y: i64 = 0;

    if keys.left {
        direction_x -= 1;
        game.snake.velocity.x = -game.snake.velocity.x;
    }
    if keys.right {
        direction_x += 1;
    }
    if keys.up {
        direction_y += 1;
    }
    if keys.down {
        direction_y -= 1;
        game.snake.velocity.y = -game.snake.velocity.y;
    }

    let step: i64 = (SNAKE_SPEED as i64) * (TIME_STEP as i64);
    let new_x: i64 = game.snake.position.x as i64 + direction_x * step;
    let new_y: i64 = game.snake.position.y as i64 + direction_y * step;

    let bounds = Bounds::of_arena();
    game.snake.position.x = clamp(new_x, bounds.left, bounds.right);
    game.snake.position.y = clamp(new_y, bounds.bottom, bounds.top);
}

/// Whether the snake can drift for one tick without leaving the range of its
/// coordinates.
pub open spec fn can_drift(snake: Snake) -> bool {
    &&& i32::MIN <= snake.position.x + snake.velocity.x * TIME_STEP <= i32::MAX
    &&& i32::MIN <= snake.position.y + snake.velocity.y * TIME_STEP <= i32::MAX
}

/// The snake after one tick of drift: its position advanced by its velocity
/// times the timestep.
pub open spec fn drifted(snake: Snake) -> Snake {
    Snake {
        position: Vector {
            x: (snake.position.x + snake.velocity.x * TIME_STEP) as i32,
            y: (snake.position.y + snake.velocity.y * TIME_STEP) as i32,
        },
        velocity: snake.velocity,
    }
}

/// Advances everything that has a velocity by one timestep. Only the snake
/// has one.
pub fn apply_velocity(game: &mut Game)
    requires
        can_drift(old(game).snake),
    ensures
        final(game).snake == drifted(old(game).snake),
        final(game).colliders == old(game).colliders,
        final(game).events == old(game).events,
        old(game).wf() ==> final(game).wf(),
{
    let x: i64 = game.snake.position.x as i64 + (game.snake.velocity.x as i64) * (TIME_STEP as i64);
    let y: i64 = game.snake.position.y as i64 + (game.snake.velocity.y as i64) * (TIME_STEP as i64);
    game.snake.position.x = x as i32;
    game.snake.position.y = y as i32;
}

/// A snake that is inside the bounds and no faster than its speed can drift.
pub proof fn lemma_bounded_snake_can_drift(snake: Snake)
    requires
        in_bounds(snake.position),
        snake.velocity.within_limit(),
    ensures
        can_drift(snake),
{
}

/// The bounds lie between the inner faces of the wall lines: a snake inside
/// the bounds has its centre in the play area.
pub proof fn lemma_bounds_inside_play_area(position: Vector)
    requires
        in_bounds(position),
    ensures
        subunits(LEFT_WALL + WALL_THICKNESS) < position.x < subunits(RIGHT_WALL - WALL_THICKNESS),
        subunits(BOTTOM_WALL + WALL_THICKNESS) < position.y < subunits(TOP_WALL - WALL_THICKNESS),
{
}

/// Inside the bounds the snake overlaps none of the four walls.
pub proof fn lemma_bounded_snake_clear_of_walls(snake: Snake, location: WallLocation)
    requires
        in_bounds(snake.position),
    ensures
        !overlaps(snake.rect(), wall_rect(location)),
{
}

/// With no key held, a snake inside the bounds stays where it is, whatever its
/// velocity.
pub proof fn lemma_idle_snake_stays(snake: Snake)
    requires
        in_bounds(snake.position),
    ensures
        moved(snake, Keys { left: false, right: false, up: false, down: false }) == snake,
{
}

} // verus!
