use vstd::prelude::*;
use crate::draw::{draw_rectangle, rect_at, Color, Rect};
use crate::units::{BAND_LIMIT, LIMIT, UNIT};

verus! {

/// A direction of vertical movement.
#[derive(Clone, Copy, Debug, PartialEq, Eq, Structural)]
pub enum Direction {
    Up,
    Down,
}

/// A paddle: position in micro-units, length in whole grid units.
#[derive(Clone, Copy, Debug, PartialEq, Eq, Structural)]
pub struct Paddle {
    pub x: i64,
    pub y: i64,
    pub size: i32,
}

/// The vertical position after one slide step from `y` in `direction`,
/// kept within `[min_y, max_y - size]`.
pub open spec fn slid(y: int, direction: Option<Direction>, min_y: int, max_y: int, size: int) -> int {
    match direction {
        Some(Direction::Up) => {
            if y - UNIT >= min_y {
                y - UNIT
            } else {
                min_y
            }
        },
        Some(Direction::Down) => {
            if y + UNIT <= max_y - size * UNIT {
                y + UNIT
            } else {
                max_y - size * UNIT
            }
        },
        None => y,
    }
}

impl Paddle {
    /// Position within `[-LIMIT, LIMIT]` and a length that is not negative.
    pub open spec fn wf(&self) -> bool {
        &&& -LIMIT <= self.x <= LIMIT
        &&& -LIMIT <= self.y <= LIMIT
        &&& self.size >= 0
    }

    /// The paddle after sliding once in `direction` within `[min_y, max_y]`.
    pub open spec fn slide_to(self, direction: Option<Direction>, min_y: int, max_y: int) -> Paddle {
        Paddle { y: slid(self.y as int, direction, min_y, max_y, self.size as int) as i64, ..self }
    }

    pub fn new(x: i64, y: i64, size: i32) -> (r: Self)
        requires
            -LIMIT <= x <= LIMIT,
            -LIMIT <= y <= LIMIT,
            size >= 0,
        ensures
            r.wf(),
            r == (Paddle { x, y, size }),
    {
        Self { x, y, size }
    }

    /// The white rectangle, one unit wide and `size` units tall, that shows the paddle.
    pub fn draw(&self) -> (r: Rect)
        requires
            self.wf(),
        ensures
            r == rect_at(Color::White, self.x as int, self.y as int, 1, self.size as int),
    {
        draw_rectangle(Color::White, self.x, self.y, 1, self.size)
    }

    /// Moves one grid unit in `direction`, keeping the whole paddle within `[min_y, max_y]`.
    pub fn slide(&mut self, direction: Option<Direction>, min_y: i64, max_y: i64)
        requires
            old(self).wf(),
            -BAND_LIMIT <= min_y <= BAND_LIMIT,
            -BAND_LIMIT <= max_y <= BAND_LIMIT,
        ensures
            final(self).wf(),
            *final(self) == old(self).slide_to(direction, min_y as int, max_y as int),
    {
        match direction {
            Some(Direction::Up) => {
                let up: i64 = self.y - UNIT;
                self.y = if up >= min_y {
                    up
                } else {
                    min_y
                };
            },
            Some(Direction::Down) => {
                let down: i64 = self.y + UNIT;
                let bottom: i64 = max_y - self.size as i64 * UNIT;
                self.y = if down <= bottom {
                    down
                } else {
                    bottom
                };
            },
            None => {},
        }
    }

    pub fn get_position_x(&self) -> (r: i64)
        ensures
            r == self.x,
    {
        self.x
    }

    pub fn get_position_y(&self) -> (r: i64)
        ensures
            r == self.y,
    {
        self.y
    }

    pub fn get_size(&self) -> (r: i32)
        ensures
            r == self.size,
    {
        self.size
    }
}

/// A slide never leaves a paddle that starts in its band outside it.
pub proof fn lemma_slide_stays_in_band(p: Paddle, direction: Option<Direction>, min_y: int, max_y: int)
    requires
        p.wf(),
        min_y <= p.y <= max_y - p.size * UNIT,
    ensures
        min_y <= p.slide_to(direction, min_y, max_y).y <= max_y - p.size * UNIT,
        p.slide_to(direction, min_y, max_y).x == p.x,
        p.slide_to(direction, min_y, max_y).size == p.size,
{
}

} // verus!
