//! Session-loop core: keeping the food pool stocked and letting the
//! actor eat from it, one pass per frame. Rendering, input polling and
//! the frame tick stay with the presentation layer, which calls in here.

use vstd::prelude::*;

use crate::common::GRID_SPAN;
use crate::common::Position;
use crate::common::fits_geometry;
use crate::common::spec_intersects;
use crate::food::FOOD_SIZE;
use crate::food::Food;
use crate::food::random_food;
use crate::snake::Snake;

verus! {

/// Number of food items the session keeps on the field.
pub const FOOD_POOL_SIZE: usize = 5;

/// The foods that survive a cleanup pass: the uneaten ones, in order.
pub open spec fn spec_uneaten(foods: Seq<Food>) -> Seq<Food>
    decreases foods.len(),
{
    if foods.len() == 0 {
        Seq::empty()
    } else {
        let init = spec_uneaten(foods.drop_last());
        if foods.last().is_eaten {
            init
        } else {
            init.push(foods.last())
        }
    }
}

/// How many of the foods' boxes overlap the given head box.
pub open spec fn spec_count_hits(head: Position, size: i64, foods: Seq<Food>) -> int
    decreases foods.len(),
{
    if foods.len() == 0 {
        0
    } else {
        spec_count_hits(head, size, foods.drop_last()) + if spec_intersects(
            head,
            size as int,
            foods.last().position,
            foods.last().size as int,
        ) {
            1int
        } else {
            0int
        }
    }
}

/// The initial pool: `FOOD_POOL_SIZE` freshly spawned food items.
pub fn get_a_bunch_food() -> (foods: Vec<Food>)
    ensures
        foods@.len() == FOOD_POOL_SIZE,
        forall|i: int|
            0 <= i < foods@.len() ==> {
                &&& !(#[trigger] foods@[i]).is_eaten
                &&& foods@[i].size == FOOD_SIZE
                &&& 0 <= foods@[i].position.x < GRID_SPAN
                &&& 0 <= foods@[i].position.y < GRID_SPAN
            },
{
    let mut foods: Vec<Food> = Vec::new();
    let mut i: usize = 0;
    while i < FOOD_POOL_SIZE
        invariant
            i <= FOOD_POOL_SIZE,
            foods@.len() == i,
            forall|j: int|
                0 <= j < foods@.len() ==> {
                    &&& !(#[trigger] foods@[j]).is_eaten
                    &&& foods@[j].size == FOOD_SIZE
                    &&& 0 <= foods@[j].position.x < GRID_SPAN
                    &&& 0 <= foods@[j].position.y < GRID_SPAN
                },
        decreases FOOD_POOL_SIZE - i,
    {
        foods.push(random_food());
        i = i + 1;
    }
    foods
}

/// Drop every food that has been eaten, keeping the rest in order.
fn remove_eaten(foods: &mut Vec<Food>)
    ensures
        final(foods)@ =~= spec_uneaten(old(foods)@),
{
    let len: usize = foods.len();
    let mut kept: Vec<Food> = Vec::new();
    let mut i: usize = 0;
    while i < len
        invariant
            i <= len,
            len == foods@.len(),
            foods@ == old(foods)@,
            kept@ =~= spec_uneaten(foods@.take(i as int)),
        decreases len - i,
    {
        proof {
            assert(foods@.take(i + 1).drop_last() =~= foods@.take(i as int));
            assert(foods@.take(i + 1).last() == foods@[i as int]);
        }
        let food = foods[i];
        if !food.is_eaten {
            kept.push(food);
        }
        i = i + 1;
    }
    proof {
        assert(foods@.take(len as int) =~= foods@);
    }
    *foods = kept;
}

/// The number of overlaps is between zero and the pool size.
proof fn lemma_count_hits_bounds(head: Position, size: i64, foods: Seq<Food>)
    ensures
        0 <= spec_count_hits(head, size, foods) <= foods.len(),
    decreases foods.len(),
{
    if foods.len() > 0 {
        lemma_count_hits_bounds(head, size, foods.drop_last());
    }
}

/// Every food the cleanup keeps is uneaten, and its box data is drawn
/// from the original pool, so geometric bounds carry over.
proof fn lemma_uneaten_preserves_fits(foods: Seq<Food>)
    requires
        forall|i: int|
            0 <= i < foods.len() ==> fits_geometry((#[trigger] foods[i]).position, foods[i].size),
    ensures
        spec_uneaten(foods).len() <= foods.len(),
        forall|i: int|
            0 <= i < spec_uneaten(foods).len() ==> !(#[trigger] spec_uneaten(foods)[i]).is_eaten,
        forall|i: int|
            0 <= i < spec_uneaten(foods).len() ==> fits_geometry(
                (#[trigger] spec_uneaten(foods)[i]).position,
                spec_uneaten(foods)[i].size,
            ),
    decreases foods.len(),
{
    if foods.len() > 0 {
        lemma_uneaten_preserves_fits(foods.drop_last());
    }
}

/// One session-loop pass over the food pool: drop the items eaten last
/// frame, spawn one replacement if any were dropped, then let the actor
/// try to eat every item of the pool, in order. On return every food is
/// marked eaten exactly if its box overlaps the actor's head box, and
/// the tail has grown by one copied tail-end segment per overlap.
pub fn update_foods(foods: &mut Vec<Food>, snake: &mut Snake)
    requires
        old(snake).wf(),
        forall|i: int|
            0 <= i < old(foods)@.len() ==> fits_geometry(
                (#[trigger] old(foods)@[i]).position,
                old(foods)@[i].size,
            ),
    ensures
        final(snake).wf(),
        final(snake).head == old(snake).head,
        final(snake).direction == old(snake).direction,
        final(snake).is_alive == old(snake).is_alive,
        final(snake).speed == old(snake).speed,
        final(snake).size == old(snake).size,
        ({
            let kept = spec_uneaten(old(foods)@);
            let replenished = kept.len() < old(foods)@.len();
            &&& final(foods)@.len() == kept.len() + if replenished {
                1int
            } else {
                0int
            }
            &&& forall|i: int|
                0 <= i < kept.len() ==> (#[trigger] final(foods)@[i]).position == kept[i].position
                    && final(foods)@[i].size == kept[i].size
            &&& (replenished ==> final(foods)@.last().size == FOOD_SIZE
                && 0 <= final(foods)@.last().position.x < GRID_SPAN
                && 0 <= final(foods)@.last().position.y < GRID_SPAN)
        }),
        forall|i: int|
            0 <= i < final(foods)@.len() ==> (#[trigger] final(foods)@[i]).is_eaten
                == spec_intersects(
                old(snake).head,
                old(snake).size as int,
                final(foods)@[i].position,
                final(foods)@[i].size as int,
            ),
        final(snake).tail@.len() == old(snake).tail@.len() + spec_count_hits(
            old(snake).head,
            old(snake).size,
            final(foods)@,
        ),
        forall|j: int|
            0 <= j < old(snake).tail@.len() ==> final(snake).tail@[j] == old(snake).tail@[j],
        forall|j: int|
            old(snake).tail@.len() <= j < final(snake).tail@.len() ==> final(snake).tail@[j]
                == old(snake).tail@.last(),
{
    proof {
        lemma_uneaten_preserves_fits(old(foods)@);
    }
    let previous_nr_of_foods: usize = foods.len();
    remove_eaten(foods);

    if previous_nr_of_foods > foods.len() {
        foods.push(random_food());
    }

    let ghost pool0: Seq<Food> = foods@;
    let len: usize = foods.len();
    let mut i: usize = 0;
    while i < len
        invariant
            i <= len,
            len == foods@.len(),
            len == pool0.len(),
            old(snake).wf(),
            snake.wf(),
            snake.head == old(snake).head,
            snake.direction == old(snake).direction,
            snake.is_alive == old(snake).is_alive,
            snake.speed == old(snake).speed,
            snake.size == old(snake).size,
            forall|j: int|
                0 <= j < len ==> (#[trigger] foods@[j]).position == pool0[j].position
                    && foods@[j].size == pool0[j].size,
            forall|j: int|
                0 <= j < len ==> fits_geometry((#[trigger] pool0[j]).position, pool0[j].size),
            forall|j: int| 0 <= j < len ==> !(#[trigger] pool0[j]).is_eaten,
            forall|j: int|
                0 <= j < i ==> (#[trigger] foods@[j]).is_eaten == spec_intersects(
                    old(snake).head,
                    old(snake).size as int,
                    foods@[j].position,
                    foods@[j].size as int,
                ),
            forall|j: int| i <= j < len ==> (#[trigger] foods@[j]).is_eaten == pool0[j].is_eaten,
            snake.tail@.len() == old(snake).tail@.len() + spec_count_hits(
                old(snake).head,
                old(snake).size,
                foods@.take(i as int),
            ),
            forall|j: int|
                0 <= j < old(snake).tail@.len() ==> snake.tail@[j] == old(snake).tail@[j],
            forall|j: int|
                old(snake).tail@.len() <= j < snake.tail@.len() ==> snake.tail@[j] == old(
                    snake,
                ).tail@.last(),
        decreases len - i,
    {
        let ghost foods_before = foods@;
        let ghost tail_before = snake.tail@;
        proof {
            lemma_count_hits_bounds(old(snake).head, old(snake).size, foods@.take(i as int));
        }
        let mut food = foods[i];
        snake.maybe_eat_food(&mut food);
        foods.set(i, food);
        i = i + 1;
        proof {
            assert(tail_before.last() == old(snake).tail@.last());
            assert(foods@.take(i - 1) =~= foods_before.take(i - 1));
            assert(foods@.take(i as int).drop_last() =~= foods@.take(i - 1));
            assert(foods@.take(i as int).last() == foods@[i - 1]);
        }
    }
    proof {
        assert(foods@.take(len as int) =~= foods@);
    }
}

} // verus!
