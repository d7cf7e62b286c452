//! The actor entity: head, ordered tail, heading, speed and alive flag,
//! with the per-frame movement, wraparound, growth and self-collision rules.

use vstd::prelude::*;

use crate::common::Direction;
use crate::common::GRID_SPAN;
use crate::common::fits_geometry;
use crate::common::intersects;
use crate::common::spec_intersects;
use crate::common::get_random_direction;
use crate::common::get_random_position;
use crate::common::Position;
use crate::common::Positioned;
use crate::common::SUBPIXELS;
use crate::common::is_opposite_directions;
use crate::common::spec_opposite;
use crate::food::Food;

verus! {

/// Edge length of the head and of every tail segment, in milli-pixels.
pub const SNAKE_SIZE: i64 = 20 * SUBPIXELS;

/// Travel speed, in pixels per second.
pub const SNAKE_SPEED: i64 = 200;

/// Leading tail segments excluded from the self-collision test, so a
/// freshly spawned actor, whose segments overlap by construction, does
/// not die at once.
pub const COLLISION_SKIP: usize = 15;

/// Upper bound on the elapsed time one frame may account for, in
/// milliseconds; it keeps every displacement computation far from
/// overflow.
pub const MAX_ELAPSED_MS: i64 = 1_000_000;

#[derive(Debug)]
pub struct Snake {
    pub head: Position,
    pub size: i64,
    pub tail: Vec<TailPart>,
    pub is_alive: bool,
    pub direction: Direction,
    pub speed: i64,
}

#[derive(Debug, Copy, Clone, PartialEq, Eq, Structural)]
pub struct TailPart {
    pub position: Position,
    pub size: i64,
}

impl Positioned for TailPart {
    open spec fn pos(&self) -> Position {
        self.position
    }

    open spec fn size(&self) -> i64 {
        self.size
    }

    fn get_position(&self) -> (p: &Position) {
        &self.position
    }

    fn get_size(&self) -> (s: i64) {
        self.size
    }
}

impl Positioned for Snake {
    open spec fn pos(&self) -> Position {
        self.head
    }

    open spec fn size(&self) -> i64 {
        self.size
    }

    fn get_position(&self) -> (p: &Position) {
        &self.head
    }

    fn get_size(&self) -> (s: i64) {
        self.size
    }
}

/// A tail segment whose box lies inside the field and has the fixed size.
pub open spec fn wf_part(p: TailPart) -> bool {
    &&& 0 <= p.position.x < GRID_SPAN
    &&& 0 <= p.position.y < GRID_SPAN
    &&& p.size == SNAKE_SIZE
}

impl Snake {
    /// Well-formedness: the head lies inside the field, the constants
    /// hold their fixed values, and the tail is a non-empty sequence of
    /// well-formed segments.
    pub open spec fn wf(&self) -> bool {
        &&& 0 <= self.head.x < GRID_SPAN
        &&& 0 <= self.head.y < GRID_SPAN
        &&& self.size == SNAKE_SIZE
        &&& self.speed == SNAKE_SPEED
        &&& self.tail@.len() >= 1
        &&& forall|i: int| 0 <= i < self.tail@.len() ==> wf_part(#[trigger] self.tail@[i])
    }

    pub fn new(position: Position, direction: Direction) -> (s: Snake)
        requires
            0 <= position.x < GRID_SPAN,
            0 <= position.y < GRID_SPAN,
        ensures
            s.wf(),
            s.head == position,
            s.direction == direction,
            s.is_alive,
            s.speed == SNAKE_SPEED,
            s.size == SNAKE_SIZE,
            s.tail@.len() == 1,
            s.tail@[0] == (TailPart { position, size: SNAKE_SIZE }),
    {
        let mut tail: Vec<TailPart> = Vec::new();
        tail.push(TailPart { position, size: SNAKE_SIZE });
        Snake {
            head: position,
            tail,
            is_alive: true,
            direction,
            speed: SNAKE_SPEED,
            size: SNAKE_SIZE,
        }
    }
}

/// The heading that results from a direction request: the request is
/// ignored exactly when the current heading is its opposite.
pub open spec fn spec_redirect(cur: Direction, input: Direction) -> Direction {
    if cur == spec_opposite(input) {
        cur
    } else {
        input
    }
}

/// Distance covered in one frame, in milli-pixels: pixels per second
/// times milliseconds.
pub open spec fn spec_displacement(speed: i64, elapsed_ms: i64) -> int {
    (speed as int) * (elapsed_ms as int)
}

/// Where the head lands after moving `disp` milli-pixels along `d`:
/// Up decreases y, Down increases y, Left decreases x, Right increases x.
pub open spec fn spec_move(p: Position, d: Direction, disp: int) -> (int, int) {
    match d {
        Direction::Up => (p.x as int, p.y as int - disp),
        Direction::Down => (p.x as int, p.y as int + disp),
        Direction::Left => (p.x as int - disp, p.y as int),
        Direction::Right => (p.x as int + disp, p.y as int),
    }
}

/// Toroidal wraparound, one correction at most, in fixed priority order
/// (x below, x at-or-above, y below, y at-or-above): a coordinate below
/// zero re-enters at `GRID_SPAN - size`, one at or past `GRID_SPAN`
/// re-enters at zero.
pub open spec fn spec_wrap(c: (int, int), size: i64) -> (int, int) {
    if c.0 < 0 {
        (GRID_SPAN - size, c.1)
    } else if c.0 >= GRID_SPAN {
        (0, c.1)
    } else if c.1 < 0 {
        (c.0, GRID_SPAN - size)
    } else if c.1 >= GRID_SPAN {
        (c.0, 0)
    } else {
        c
    }
}

/// The head position after one full frame: move along the current
/// heading, then wrap.
pub open spec fn spec_head_after(s: Snake, elapsed_ms: i64) -> Position {
    let c = spec_wrap(
        spec_move(s.head, s.direction, spec_displacement(s.speed, elapsed_ms)),
        s.size,
    );
    Position { x: c.0 as i64, y: c.1 as i64 }
}

impl Snake {
    /// Change heading to `input` unless that is the exact opposite of
    /// the current heading, which would reverse the actor into itself.
    pub fn set_direction(&mut self, input: Direction)
        ensures
            final(self).direction == spec_redirect(old(self).direction, input),
            final(self).head == old(self).head,
            final(self).tail@ == old(self).tail@,
            final(self).is_alive == old(self).is_alive,
            final(self).speed == old(self).speed,
            final(self).size == old(self).size,
    {
        if !is_opposite_directions(&self.direction, &input) {
            self.direction = input;
        }
    }

    /// Apply at most one directional input for this frame: scan the
    /// four directions in the fixed Up, Down, Left, Right order and take
    /// the first pressed one that is not the opposite of the current
    /// heading.
    pub fn capture_input(&mut self, up: bool, down: bool, left: bool, right: bool)
        ensures
            final(self).direction == spec_first_accepted(
                old(self).direction,
                up,
                down,
                left,
                right,
            ),
            final(self).head == old(self).head,
            final(self).tail@ == old(self).tail@,
            final(self).is_alive == old(self).is_alive,
            final(self).speed == old(self).speed,
            final(self).size == old(self).size,
    {
        if up && !is_opposite_directions(&self.direction, &Direction::Up) {
            self.direction = Direction::Up;
        } else if down && !is_opposite_directions(&self.direction, &Direction::Down) {
            self.direction = Direction::Down;
        } else if left && !is_opposite_directions(&self.direction, &Direction::Left) {
            self.direction = Direction::Left;
        } else if right && !is_opposite_directions(&self.direction, &Direction::Right) {
            self.direction = Direction::Right;
        }
    }

    pub fn get_direction(&self) -> (d: Direction)
        ensures
            d == self.direction,
    {
        self.direction
    }
}

/// The heading after one frame's worth of key presses: the first
/// pressed direction, in the fixed Up, Down, Left, Right scan order,
/// whose opposite is not the current heading; the heading is kept when
/// no press qualifies.
pub open spec fn spec_first_accepted(
    cur: Direction,
    up: bool,
    down: bool,
    left: bool,
    right: bool,
) -> Direction {
    if up && cur != spec_opposite(Direction::Up) {
        Direction::Up
    } else if down && cur != spec_opposite(Direction::Down) {
        Direction::Down
    } else if left && cur != spec_opposite(Direction::Left) {
        Direction::Left
    } else if right && cur != spec_opposite(Direction::Right) {
        Direction::Right
    } else {
        cur
    }
}

/// Submitting the exact opposite of the current heading leaves the
/// heading unchanged.
pub proof fn lemma_opposite_input_ignored(d: Direction)
    ensures
        spec_redirect(d, spec_opposite(d)) == d,
{
}

/// The tail after the per-frame shift: every segment except the neck
/// (index 0) takes the value its predecessor held before the shift.
pub open spec fn spec_shifted(t: Seq<TailPart>) -> Seq<TailPart> {
    Seq::new(t.len(), |i: int| if i == 0 { t[0] } else { t[i - 1] })
}

/// The head's box overlaps some tail segment at or past the skip
/// threshold.
pub open spec fn spec_hits_tail(head: Position, size: i64, t: Seq<TailPart>) -> bool {
    exists|i: int|
        COLLISION_SKIP <= i < t.len() && spec_intersects(
            head,
            size as int,
            t[i].position,
            t[i].size as int,
        )
}

impl Snake {
    /// Displace the head along the current heading by
    /// `speed * elapsed_ms` milli-pixels.
    fn move_head(&mut self, elapsed_ms: i64)
        requires
            0 <= elapsed_ms <= MAX_ELAPSED_MS,
            old(self).speed == SNAKE_SPEED,
            0 <= old(self).head.x < GRID_SPAN,
            0 <= old(self).head.y < GRID_SPAN,
        ensures
            ({
                let m = spec_move(
                    old(self).head,
                    old(self).direction,
                    spec_displacement(old(self).speed, elapsed_ms),
                );
                final(self).head.x == m.0 && final(self).head.y == m.1
            }),
            final(self).tail@ == old(self).tail@,
            final(self).direction == old(self).direction,
            final(self).is_alive == old(self).is_alive,
            final(self).speed == old(self).speed,
            final(self).size == old(self).size,
    {
        let delta: i64 = self.speed * elapsed_ms;
        match self.direction {
            Direction::Up => self.head.y = self.head.y - delta,
            Direction::Down => self.head.y = self.head.y + delta,
            Direction::Left => self.head.x = self.head.x - delta,
            Direction::Right => self.head.x = self.head.x + delta,
        }
    }

    /// Teleport the head to the other side of the field when it has
    /// travelled over an edge, one axis-direction at most per frame.
    fn maybe_teleport(&mut self)
        requires
            0 <= old(self).size <= GRID_SPAN,
        ensures
            ({
                let w = spec_wrap(
                    (old(self).head.x as int, old(self).head.y as int),
                    old(self).size,
                );
                final(self).head.x == w.0 && final(self).head.y == w.1
            }),
            final(self).tail@ == old(self).tail@,
            final(self).direction == old(self).direction,
            final(self).is_alive == old(self).is_alive,
            final(self).speed == old(self).speed,
            final(self).size == old(self).size,
    {
        if self.head.x < 0 {
            self.head.x = GRID_SPAN - self.size;
        } else if self.head.x >= GRID_SPAN {
            self.head.x = 0;
        } else if self.head.y < 0 {
            self.head.y = GRID_SPAN - self.size;
        } else if self.head.y >= GRID_SPAN {
            self.head.y = 0;
        }
    }

    /// Shift the whole tail up one position, except for the neck,
    /// iterating from the tail end so no segment's new value depends on
    /// an already-updated one.
    fn move_tail(&mut self)
        ensures
            final(self).tail@ =~= spec_shifted(old(self).tail@),
            final(self).head == old(self).head,
            final(self).direction == old(self).direction,
            final(self).is_alive == old(self).is_alive,
            final(self).speed == old(self).speed,
            final(self).size == old(self).size,
    {
        let len: usize = self.tail.len();
        let mut i: usize = len;
        while i > 1
            invariant
                i <= len,
                len >= 1 ==> i >= 1,
                len == self.tail@.len(),
                len == old(self).tail@.len(),
                forall|j: int| i <= j < len ==> self.tail@[j] == old(self).tail@[j - 1],
                forall|j: int| 0 <= j < i ==> self.tail@[j] == old(self).tail@[j],
                self.head == old(self).head,
                self.direction == old(self).direction,
                self.is_alive == old(self).is_alive,
                self.speed == old(self).speed,
                self.size == old(self).size,
            decreases i,
        {
            i = i - 1;
            let prev = self.tail[i - 1];
            self.tail.set(i, prev);
        }
    }

    /// Kill the actor if its head overlaps any tail segment at or past
    /// the skip threshold.
    fn maybe_kill_snake(&mut self)
        requires
            fits_geometry(old(self).head, old(self).size),
            forall|j: int|
                0 <= j < old(self).tail@.len() ==> fits_geometry(
                    (#[trigger] old(self).tail@[j]).position,
                    old(self).tail@[j].size,
                ),
        ensures
            final(self).is_alive == (old(self).is_alive && !spec_hits_tail(
                old(self).head,
                old(self).size,
                old(self).tail@,
            )),
            final(self).head == old(self).head,
            final(self).tail@ == old(self).tail@,
            final(self).direction == old(self).direction,
            final(self).speed == old(self).speed,
            final(self).size == old(self).size,
    {
        let len: usize = self.tail.len();
        let mut i: usize = COLLISION_SKIP;
        while i < len
            invariant
                COLLISION_SKIP <= i,
                i <= len || i == COLLISION_SKIP,
                len == self.tail@.len(),
                self.head == old(self).head,
                self.tail@ == old(self).tail@,
                self.direction == old(self).direction,
                self.speed == old(self).speed,
                self.size == old(self).size,
                self.is_alive == (old(self).is_alive && !(exists|k: int|
                    COLLISION_SKIP <= k < i && spec_intersects(
                        old(self).head,
                        old(self).size as int,
                        old(self).tail@[k].position,
                        old(self).tail@[k].size as int,
                    ))),
                fits_geometry(old(self).head, old(self).size),
                forall|j: int|
                    0 <= j < old(self).tail@.len() ==> fits_geometry(
                        (#[trigger] old(self).tail@[j]).position,
                        old(self).tail@[j].size,
                    ),
            decreases len - i,
        {
            let part = self.tail[i];
            if intersects(&*self, &part) {
                self.is_alive = false;
            }
            i = i + 1;
        }
    }
}

impl Snake {
    /// One full frame, in this exact order: move the head along the
    /// current heading, wrap it at the field edges, shift the body, run
    /// the self-collision check against the shifted tail, then close the
    /// neck with the position the head held when the frame began.
    pub fn update(&mut self, elapsed_ms: i64)
        requires
            old(self).wf(),
            0 <= elapsed_ms <= MAX_ELAPSED_MS,
        ensures
            final(self).wf(),
            final(self).head == spec_head_after(*old(self), elapsed_ms),
            final(self).direction == old(self).direction,
            final(self).speed == old(self).speed,
            final(self).size == old(self).size,
            final(self).is_alive == (old(self).is_alive && !spec_hits_tail(
                spec_head_after(*old(self), elapsed_ms),
                old(self).size,
                spec_shifted(old(self).tail@),
            )),
            final(self).tail@.len() == old(self).tail@.len(),
            final(self).tail@[0] == (TailPart {
                position: old(self).head,
                size: old(self).size,
            }),
            forall|i: int|
                1 <= i < old(self).tail@.len() ==> final(self).tail@[i] == old(self).tail@[i - 1],
    {
        let prev_position = self.head;

        self.move_head(elapsed_ms);
        self.maybe_teleport();
        self.move_tail();
        proof {
            assert forall|j: int| 0 <= j < self.tail@.len() implies wf_part(
                #[trigger] self.tail@[j],
            ) by {
                if j == 0 {
                    assert(wf_part(old(self).tail@[0]));
                } else {
                    assert(wf_part(old(self).tail@[j - 1]));
                }
            }
        }
        self.maybe_kill_snake();

        let neck = TailPart { position: prev_position, size: self.size };
        self.tail.set(0, neck);
    }

    /// If the food is not already eaten and its box overlaps the head's,
    /// mark it eaten and append a duplicate of the tail-end segment;
    /// otherwise change nothing at all.
    pub fn maybe_eat_food(&mut self, food: &mut Food)
        requires
            old(self).wf(),
            fits_geometry(old(food).position, old(food).size),
        ensures
            final(self).wf(),
            final(food).position == old(food).position,
            final(food).size == old(food).size,
            final(food).is_eaten == (old(food).is_eaten || spec_intersects(
                old(self).head,
                old(self).size as int,
                old(food).position,
                old(food).size as int,
            )),
            ({
                let eaten_now = !old(food).is_eaten && spec_intersects(
                    old(self).head,
                    old(self).size as int,
                    old(food).position,
                    old(food).size as int,
                );
                if eaten_now {
                    final(self).tail@ =~= old(self).tail@.push(old(self).tail@.last())
                } else {
                    *final(self) == *old(self) && *final(food) == *old(food)
                }
            }),
            final(self).head == old(self).head,
            final(self).direction == old(self).direction,
            final(self).is_alive == old(self).is_alive,
            final(self).speed == old(self).speed,
            final(self).size == old(self).size,
    {
        let is_being_eaten = intersects(&*self, &*food);

        if is_being_eaten && !food.is_eaten {
            food.is_eaten = is_being_eaten;
            let last_index: usize = self.tail.len() - 1;
            let last_position = self.tail[last_index];
            self.tail.push(last_position);
        }
    }
}

/// An alive actor of one segment at a random spot inside the field,
/// with a random heading.
pub fn random_snake() -> (s: Snake)
    ensures
        s.wf(),
        s.is_alive,
        s.tail@.len() == 1,
        s.tail@[0] == (TailPart { position: s.head, size: SNAKE_SIZE }),
{
    Snake::new(get_random_position(), get_random_direction())
}

/// Wraparound on the x axis: a head that crossed the lower edge
/// re-enters at `GRID_SPAN - size`, one at or past the upper edge
/// re-enters at zero.
pub proof fn lemma_wraparound_x(c: (int, int), size: i64)
    ensures
        c.0 < 0 ==> spec_wrap(c, size).0 == GRID_SPAN - size,
        c.0 >= GRID_SPAN ==> spec_wrap(c, size).0 == 0,
{
}

/// Wraparound on the y axis, reachable only when x needed no
/// correction: below the field re-enters at `GRID_SPAN - size`, at or
/// past the upper edge re-enters at zero.
pub proof fn lemma_wraparound_y(c: (int, int), size: i64)
    requires
        0 <= c.0 < GRID_SPAN,
    ensures
        c.1 < 0 ==> spec_wrap(c, size).1 == GRID_SPAN - size,
        c.1 >= GRID_SPAN ==> spec_wrap(c, size).1 == 0,
{
}

/// With at most `COLLISION_SKIP` tail segments the self-collision test
/// can never fire, however the segments overlap the head.
pub proof fn lemma_short_tail_never_collides(head: Position, size: i64, t: Seq<TailPart>)
    requires
        t.len() <= COLLISION_SKIP,
    ensures
        !spec_hits_tail(head, size, t),
{
}

} // verus!
