//! The consumable entity: a food item with a fixed-size bounding box and
//! a consumed flag, spawned at a random spot on the field.

use vstd::prelude::*;

use crate::common::GRID_SPAN;
use crate::common::Position;
use crate::common::Positioned;
use crate::common::SUBPIXELS;
use crate::common::get_random_position;

verus! {

/// Edge length of a food item's bounding box, in milli-pixels.
pub const FOOD_SIZE: i64 = 10 * SUBPIXELS;

#[derive(Debug, Copy, Clone)]
pub struct Food {
    pub position: Position,
    pub size: i64,
    pub is_eaten: bool,
}

impl Food {
    pub fn new(position: Position) -> (f: Food)
        ensures
            f.position == position,
            f.size == FOOD_SIZE,
            !f.is_eaten,
    {
        Food { position, size: FOOD_SIZE, is_eaten: false }
    }
}

impl Positioned for Food {
    open spec fn pos(&self) -> Position {
        self.position
    }

    open spec fn size(&self) -> i64 {
        self.size
    }

    fn get_position(&self) -> (p: &Position) {
        &self.position
    }

    fn get_size(&self) -> (s: i64) {
        self.size
    }
}

/// A fresh, not yet eaten food item at a random spot inside the field.
pub fn random_food() -> (f: Food)
    ensures
        f.size == FOOD_SIZE,
        !f.is_eaten,
        0 <= f.position.x < GRID_SPAN,
        0 <= f.position.y < GRID_SPAN,
{
    Food::new(get_random_position())
}

} // verus!
