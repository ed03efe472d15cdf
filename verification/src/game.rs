//! A game from its first state on, tick by tick.

use vstd::prelude::*;
use crate::collisions::{
    check_for_collisions, events_of, hit_count, random_food_position, resolved, spawn_food,
};
use crate::entities::{
    all_food_fresh, food_at, food_count, in_arena, is_food, is_wall, walls_of, Collider,
    ColliderKind, CollisionEvent, Game, Snake, Velocity,
};
use crate::geometry::Vector;
use crate::movement::{
    apply_velocity, can_drift, drifted, in_bounds, move_snake, moved, Keys,
};
use crate::seq_facts::lemma_filter_push;
use crate::units::SNAKE_SPEED;
use crate::walls::{the_walls, wall_at, WallBundle, WallLocation};

verus! {

/// The snake as a game begins: at the middle of the arena, heading left at
/// full speed.
pub open spec fn initial_snake() -> Snake {
    Snake {
        position: Vector { x: 0, y: 0 },
        velocity: Velocity { x: (-SNAKE_SPEED) as i32, y: 0 },
    }
}

/// The colliders as a game begins: the food, centred at `food`, and behind it
/// the four walls.
pub open spec fn initial_colliders(food: Vector) -> Seq<Collider> {
    seq![
        food_at(food),
        wall_at(WallLocation::Left),
        wall_at(WallLocation::Right),
        wall_at(WallLocation::Bottom),
        wall_at(WallLocation::Top),
    ]
}

/// Puts a wall into the game, behind all other colliders.
pub fn spawn_wall(game: &mut Game, wall: WallBundle)
    ensures
        final(game).colliders@ == old(game).colliders@.push(wall.as_collider()),
        final(game).snake == old(game).snake,
        final(game).events == old(game).events,
{
    game.colliders.push(Collider { kind: wall.collider, rect: wall.rect });
}

impl Game {
    /// A game in its first state, with the food centred at `food`.
    pub fn new(food: Vector) -> (game: Game)
        ensures
            game.snake == initial_snake(),
            game.colliders@ == initial_colliders(food),
            game.events@ == Seq::<CollisionEvent>::empty(),
            in_arena(food) ==> game.wf(),
    {
        let mut game = Game {
            snake: Snake {
                position: Vector { x: 0, y: 0 },
                velocity: Velocity { x: -SNAKE_SPEED, y: 0 },
            },
            colliders: Vec::new(),
            events: Vec::new(),
        };
        spawn_food(&mut game, food);
        spawn_wall(&mut game, WallBundle::new(WallLocation::Left));
        spawn_wall(&mut game, WallBundle::new(WallLocation::Right));
        spawn_wall(&mut game, WallBundle::new(WallLocation::Bottom));
        spawn_wall(&mut game, WallBundle::new(WallLocation::Top));
        assert(game.colliders@ == initial_colliders(food));
        assert(in_arena(food) ==> game.wf()) by {
            lemma_initial_colliders(food);
        }
        game
    }
}

/// The colliders of a new game hold one piece of food and the four walls, and
/// the food is of the right extent and in the arena if it was placed there.
pub proof fn lemma_initial_colliders(food: Vector)
    ensures
        food_count(initial_colliders(food)) == 1,
        walls_of(initial_colliders(food)) == the_walls(),
        in_arena(food) ==> all_food_fresh(initial_colliders(food)),
{
    assert(in_arena(food) ==> all_food_fresh(initial_colliders(food))) by {
        let all = initial_colliders(food);
        assert(all[0] == food_at(food));
        assert(all[1].kind == ColliderKind::Wall);
        assert(all[2].kind == ColliderKind::Wall);
        assert(all[3].kind == ColliderKind::Wall);
        assert(all[4].kind == ColliderKind::Wall);
    }
    reveal(food_count);
    reveal(walls_of);
    let s0 = Seq::<Collider>::empty();
    let s1 = s0.push(food_at(food));
    let s2 = s1.push(wall_at(WallLocation::Left));
    let s3 = s2.push(wall_at(WallLocation::Right));
    let s4 = s3.push(wall_at(WallLocation::Bottom));
    let s5 = s4.push(wall_at(WallLocation::Top));
    assert(s5 == initial_colliders(food));
    assert(s0.filter(is_food()).len() == 0 && s0.filter(is_wall()) == s0) by {
        reveal(Seq::filter);
    }
    lemma_filter_push(s0, food_at(food), is_food());
    lemma_filter_push(s1, wall_at(WallLocation::Left), is_food());
    lemma_filter_push(s2, wall_at(WallLocation::Right), is_food());
    lemma_filter_push(s3, wall_at(WallLocation::Bottom), is_food());
    lemma_filter_push(s4, wall_at(WallLocation::Top), is_food());
    lemma_filter_push(s0, food_at(food), is_wall());
    lemma_filter_push(s1, wall_at(WallLocation::Left), is_wall());
    lemma_filter_push(s2, wall_at(WallLocation::Right), is_wall());
    lemma_filter_push(s3, wall_at(WallLocation::Bottom), is_wall());
    lemma_filter_push(s4, wall_at(WallLocation::Top), is_wall());
    assert(s5.filter(is_wall()) == the_walls());
}

/// Begins a game: the snake at the middle of the arena, one piece of food at
/// a place drawn from the arena, and the four walls.
pub fn setup() -> (game: Game)
    ensures
        game.snake == initial_snake(),
        exists|food: Vector| in_arena(food) && game.colliders@ == #[trigger] initial_colliders(food),
        game.events@ == Seq::<CollisionEvent>::empty(),
        game.wf(),
{
    let food = random_food_position();
    Game::new(food)
}

/// One tick of the game: the keys are read and the snake moved by them, then
/// it drifts by its velocity, then it is tested against the colliders.
pub fn tick(game: &mut Game, keys: Keys)
    requires
        old(game).snake.velocity.within_limit(),
    ensures
        final(game).snake == drifted(moved(old(game).snake, keys)),
        in_bounds(moved(old(game).snake, keys).position),
        resolved(final(game).snake.rect(), old(game).colliders@, final(game).colliders@),
        final(game).events@ == old(game).events@ + events_of(
            hit_count(final(game).snake.rect(), old(game).colliders@),
        ),
        food_count(final(game).colliders@) == food_count(old(game).colliders@),
        walls_of(final(game).colliders@) == walls_of(old(game).colliders@),
        final(game).snake.velocity.within_limit(),
        old(game).wf() ==> final(game).wf(),
{
    move_snake(game, keys);
    apply_velocity(game);
    check_for_collisions(game);
}

/// The snake after a run of ticks, given the keys held in each, the first
/// tick first.
pub open spec fn after_ticks(snake: Snake, keys: Seq<Keys>) -> Snake
    decreases keys.len(),
{
    if keys.len() == 0 {
        snake
    } else {
        drifted(moved(after_ticks(snake, keys.drop_last()), keys.last()))
    }
}

/// Whatever keys are held tick after tick, the snake never gets faster than
/// its speed, and the clamp of the next tick leaves it inside the bounds.
pub proof fn lemma_every_tick_clamps(snake: Snake, keys: Seq<Keys>, next: Keys)
    requires
        snake.velocity.within_limit(),
    ensures
        after_ticks(snake, keys).velocity.within_limit(),
        in_bounds(moved(after_ticks(snake, keys), next).position),
        can_drift(moved(after_ticks(snake, keys), next)),
    decreases keys.len(),
{
    if keys.len() > 0 {
        lemma_every_tick_clamps(snake, keys.drop_last(), keys.last());
    }
}

} // verus!
