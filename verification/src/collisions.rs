//! What happens when the snake runs into something: every collider it
//! overlaps is reported, and food that it overlaps is eaten and replaced by a
//! new piece somewhere in the arena.

use vstd::prelude::*;
use crate::entities::{
    all_food_fresh, food_at, food_count, in_arena, is_food, is_fresh_food, is_wall, walls_of,
    Collider, ColliderKind, CollisionEvent, Game,
};
use crate::geometry::{collide, overlaps, Rect, Vector};
use crate::random::random_in_range;
use crate::seq_facts::{lemma_filter_push, lemma_filter_remove};
use crate::units::{to_subunits, BOTTOM_WALL, LEFT_WALL, RIGHT_WALL, TOP_WALL};

verus! {

/// Tells the colliders that a snake covering `snake` runs into.
pub open spec fn is_hit(snake: Rect) -> spec_fn(Collider) -> bool {
    |c: Collider| overlaps(snake, c.rect)
}

/// Tells the colliders that a snake covering `snake` does not eat: all but
/// the food that it runs into.
pub open spec fn is_spared(snake: Rect) -> spec_fn(Collider) -> bool {
    |c: Collider| !(c.kind == ColliderKind::Food && overlaps(snake, c.rect))
}

/// The number of colliders that the snake runs into.
#[verifier::opaque]
pub open spec fn hit_count(snake: Rect, colliders: Seq<Collider>) -> nat {
    colliders.filter(is_hit(snake)).len()
}

/// The colliders that are left when the snake has eaten, in order.
#[verifier::opaque]
pub open spec fn survivors(snake: Rect, colliders: Seq<Collider>) -> Seq<Collider> {
    colliders.filter(is_spared(snake))
}

/// Whether `after` is what a snake covering `snake` leaves of the colliders
/// `before`: those that it did not eat, in their old order, and behind them
/// one new piece of food for each piece eaten.
pub open spec fn resolved(snake: Rect, before: Seq<Collider>, after: Seq<Collider>) -> bool {
    let kept = survivors(snake, before);
    &&& after.len() == before.len()
    &&& after.take(kept.len() as int) == kept
    &&& forall|j: int| kept.len() <= j < after.len() ==> is_fresh_food(#[trigger] after[j])
}

/// `count` collision events.
pub open spec fn events_of(count: nat) -> Seq<CollisionEvent> {
    Seq::new(count, |i: int| CollisionEvent)
}

/// Takes the collider at `index` out of the game.
pub fn despawn(game: &mut Game, index: usize) -> (gone: Collider)
    requires
        index < old(game).colliders@.len(),
    ensures
        gone == old(game).colliders@[index as int],
        final(game).colliders@ == old(game).colliders@.remove(index as int),
        food_count(final(game).colliders@) + (if gone.kind == ColliderKind::Food {
            1int
        } else {
            0int
        }) == food_count(old(game).colliders@),
        gone.kind == ColliderKind::Food ==> walls_of(final(game).colliders@) == walls_of(
            old(game).colliders@,
        ),
        final(game).snake == old(game).snake,
        final(game).events == old(game).events,
{
    proof {
        reveal(food_count);
        reveal(walls_of);
        lemma_filter_remove(game.colliders@, index as int, is_food());
        lemma_filter_remove(game.colliders@, index as int, is_wall());
    }
    game.colliders.remove(index)
}

/// Puts a new piece of food into the game, centred at `position`, behind all
/// other colliders.
pub fn spawn_food(game: &mut Game, position: Vector)
    ensures
        final(game).colliders@ == old(game).colliders@.push(food_at(position)),
        food_count(final(game).colliders@) == food_count(old(game).colliders@) + 1,
        walls_of(final(game).colliders@) == walls_of(old(game).colliders@),
        final(game).snake == old(game).snake,
        final(game).events == old(game).events,
{
    proof {
        reveal(food_count);
        reveal(walls_of);
        lemma_filter_push(game.colliders@, food_at(position), is_food());
        lemma_filter_push(game.colliders@, food_at(position), is_wall());
    }
    game.colliders.push(Collider::food(position));
}

/// Replaces the collider at `index` by a new piece of food centred at
/// `position`: the old one leaves the game and the new one is spawned.
pub fn respawn_food(game: &mut Game, index: usize, position: Vector)
    requires
        index < old(game).colliders@.len(),
    ensures
        final(game).colliders@ == old(game).colliders@.remove(index as int).push(
            food_at(position),
        ),
        old(game).colliders@[index as int].kind == ColliderKind::Food ==> {
            &&& food_count(final(game).colliders@) == food_count(old(game).colliders@)
            &&& walls_of(final(game).colliders@) == walls_of(old(game).colliders@)
        },
        final(game).snake == old(game).snake,
        final(game).events == old(game).events,
{
    despawn(game, index);
    spawn_food(game, position);
}

/// Draws the place of a new piece of food, each coordinate on its own.
pub fn random_food_position() -> (position: Vector)
    ensures
        in_arena(position),
{
    let x: i32 = random_in_range(to_subunits(LEFT_WALL), to_subunits(RIGHT_WALL));
    let y: i32 = random_in_range(to_subunits(BOTTOM_WALL), to_subunits(TOP_WALL));
    Vector { x, y }
}

/// Takes the events reported so far out of the game, oldest first.
pub fn drain_events(game: &mut Game) -> (events: Vec<CollisionEvent>)
    ensures
        events@ == old(game).events@,
        final(game).events@ == Seq::<CollisionEvent>::empty(),
        final(game).snake == old(game).snake,
        final(game).colliders == old(game).colliders,
{
    let mut events: Vec<CollisionEvent> = Vec::new();
    std::mem::swap(&mut events, &mut game.events);
    events
}

/// Tests the snake against every collider that is in the game when the call
/// begins. Each one that it overlaps is reported by one event. Each piece of
/// food that it overlaps is eaten: it leaves the game, and a new piece is
/// spawned at a place drawn from the arena. The new pieces are not tested
/// before the next call. Walls are reported and otherwise left alone, and so
/// is the snake.
pub fn check_for_collisions(game: &mut Game)
    ensures
        resolved(old(game).snake.rect(), old(game).colliders@, final(game).colliders@),
        final(game).events@ == old(game).events@ + events_of(
            hit_count(old(game).snake.rect(), old(game).colliders@),
        ),
        food_count(final(game).colliders@) == food_count(old(game).colliders@),
        walls_of(final(game).colliders@) == walls_of(old(game).colliders@),
        all_food_fresh(old(game).colliders@) ==> all_food_fresh(final(game).colliders@),
        final(game).snake == old(game).snake,
        old(game).wf() ==> final(game).wf(),
{
    let snake_rect = game.snake.bounding_rect();
    let total: usize = game.colliders.len();
    // `seen` colliders of the old ones have been tested; `index` is where the
    // next one to test stands now.
    let mut seen: usize = 0;
    let mut index: usize = 0;
    proof {
        reveal(hit_count);
        reveal(survivors);
    }
    while seen < total
        invariant
            seen <= total,
            total == old(game).colliders@.len(),
            total == game.colliders@.len(),
            snake_rect == old(game).snake.rect(),
            game.snake == old(game).snake,
            index + (total - seen) <= total,
            game.colliders@.take(index as int) == survivors(
                snake_rect,
                old(game).colliders@.take(seen as int),
            ),
            game.colliders@.subrange(index as int, index + total - seen) == old(
                game,
            ).colliders@.skip(seen as int),
            forall|j: int|
                index + total - seen <= j < total ==> is_fresh_food(#[trigger] game.colliders@[j]),
            game.events@ == old(game).events@ + events_of(
                hit_count(snake_rect, old(game).colliders@.take(seen as int)),
            ),
            food_count(game.colliders@) == food_count(old(game).colliders@),
            walls_of(game.colliders@) == walls_of(old(game).colliders@),
            all_food_fresh(old(game).colliders@) ==> all_food_fresh(game.colliders@),
        decreases total - seen,
    {
        let ghost tested = old(game).colliders@.take(seen as int);
        let ghost current = game.colliders@;
        let collider: Collider = game.colliders[index];
        proof {
            assert(current.subrange(index as int, index + total - seen)[0] == old(
                game,
            ).colliders@.skip(seen as int)[0]);
            assert(old(game).colliders@.take(seen + 1) == tested.push(collider));
            reveal(hit_count);
            reveal(survivors);
            lemma_filter_push(tested, collider, is_hit(snake_rect));
            lemma_filter_push(tested, collider, is_spared(snake_rect));
        }
        let mut eaten: bool = false;
        if collide(snake_rect, collider.rect).is_some() {
            game.events.push(CollisionEvent);
            assert(game.events@ == old(game).events@ + events_of(
                hit_count(snake_rect, old(game).colliders@.take(seen + 1)),
            ));
            match collider.kind {
                ColliderKind::Food => {
                    let position = random_food_position();
                    respawn_food(game, index, position);
                    eaten = true;
                },
                ColliderKind::Wall => {},
            }
        }
        proof {
            let rest = current.subrange(index as int, index + total - seen);
            let next = if eaten {
                game.colliders@.subrange(index as int, index + total - seen - 1)
            } else {
                current.subrange(index + 1, index + total - seen)
            };
            assert forall|k: int| 0 <= k < next.len() implies #[trigger] next[k] == old(
                game,
            ).colliders@.skip(seen + 1)[k] by {
                assert(rest[k + 1] == old(game).colliders@.skip(seen as int)[k + 1]);
            }
            assert(next == old(game).colliders@.skip(seen + 1));
            if eaten {
                assert(game.colliders@.take(index as int) == current.take(index as int));
            } else {
                assert(current.take(index + 1) == current.take(index as int).push(collider));
            }
        }
        if !eaten {
            index += 1;
        }
        seen += 1;
    }
    proof {
        assert(old(game).colliders@.take(total as int) == old(game).colliders@);
    }
}

} // verus!
