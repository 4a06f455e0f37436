use vstd::prelude::*;
use crate::draw::{draw_block, rect_at, Color, Rect};
use crate::units::{clamp, clamp_to_limit, floor_div, LIMIT, UNIT};

verus! {

/// The ball: position in micro-units, velocity in micro-units per second.
#[derive(Clone, Copy, Debug, PartialEq, Eq, Structural)]
pub struct Ball {
    pub x: i64,
    pub y: i64,
    pub x_velocity: i64,
    pub y_velocity: i64,
}

/// Where a coordinate `p` moving at `v` stands after `dt` microseconds.
pub open spec fn advance(p: int, v: int, dt: int) -> int {
    clamp(p + (v * dt) / UNIT as int)
}

impl Ball {
    /// Every component lies within `[-LIMIT, LIMIT]`.
    pub open spec fn wf(&self) -> bool {
        &&& -LIMIT <= self.x <= LIMIT
        &&& -LIMIT <= self.y <= LIMIT
        &&& -LIMIT <= self.x_velocity <= LIMIT
        &&& -LIMIT <= self.y_velocity <= LIMIT
    }

    /// The position the ball reaches after `dt` microseconds.
    pub open spec fn next_location(&self, dt: int) -> (int, int) {
        (advance(self.x as int, self.x_velocity as int, dt), advance(
            self.y as int,
            self.y_velocity as int,
            dt,
        ))
    }

    /// The ball with its position replaced.
    pub open spec fn moved_to(self, x: int, y: int) -> Ball {
        Ball { x: x as i64, y: y as i64, ..self }
    }

    /// The ball with its velocity replaced.
    pub open spec fn with_velocity(self, vx: int, vy: int) -> Ball {
        Ball { x_velocity: vx as i64, y_velocity: vy as i64, ..self }
    }

    /// The ball with its vertical velocity negated.
    pub open spec fn flipped_y(self) -> Ball {
        Ball { y_velocity: -self.y_velocity as i64, ..self }
    }

    /// The ball with its horizontal velocity negated.
    pub open spec fn flipped_x(self) -> Ball {
        Ball { x_velocity: -self.x_velocity as i64, ..self }
    }

    /// The ball with `factor` added to its vertical velocity.
    pub open spec fn sped_up_y(self, factor: int) -> Ball {
        Ball { y_velocity: clamp(self.y_velocity + factor) as i64, ..self }
    }

    pub fn new(x: i64, y: i64, x_velocity: i64, y_velocity: i64) -> (r: Self)
        requires
            -LIMIT <= x <= LIMIT,
            -LIMIT <= y <= LIMIT,
            -LIMIT <= x_velocity <= LIMIT,
            -LIMIT <= y_velocity <= LIMIT,
        ensures
            r.wf(),
            r == (Ball { x, y, x_velocity, y_velocity }),
    {
        Self { x, y, x_velocity, y_velocity }
    }

    /// The white block that shows the ball.
    pub fn draw(&self) -> (r: Rect)
        requires
            self.wf(),
        ensures
            r == rect_at(Color::White, self.x as int, self.y as int, 1, 1),
    {
        draw_block(Color::White, self.x, self.y)
    }

    pub fn set_position(&mut self, x: i64, y: i64)
        requires
            old(self).wf(),
            -LIMIT <= x <= LIMIT,
            -LIMIT <= y <= LIMIT,
        ensures
            final(self).wf(),
            *final(self) == old(self).moved_to(x as int, y as int),
    {
        self.x = x;
        self.y = y;
    }

    /// Where the ball will be after `delta_time` microseconds; the ball itself does not move.
    pub fn get_next_location(&self, delta_time: u64) -> (r: (i64, i64))
        requires
            self.wf(),
        ensures
            (r.0 as int, r.1 as int) == self.next_location(delta_time as int),
            -LIMIT <= r.0 <= LIMIT,
            -LIMIT <= r.1 <= LIMIT,
    {
        let dt: i128 = delta_time as i128;
        assert(-LIMIT * dt <= self.x_velocity * dt <= LIMIT * dt) by (nonlinear_arith)
            requires
                -LIMIT <= self.x_velocity <= LIMIT,
                dt >= 0,
        ;
        assert(-LIMIT * dt <= self.y_velocity * dt <= LIMIT * dt) by (nonlinear_arith)
            requires
                -LIMIT <= self.y_velocity <= LIMIT,
                dt >= 0,
        ;
        assert(LIMIT * dt <= LIMIT * 0xffff_ffff_ffff_ffffi128) by (nonlinear_arith)
            requires
                0 <= dt <= 0xffff_ffff_ffff_ffffi128,
        ;
        let dx: i128 = floor_div(self.x_velocity as i128 * dt, UNIT as i128);
        let dy: i128 = floor_div(self.y_velocity as i128 * dt, UNIT as i128);
        proof {
            vstd::arithmetic::div_mod::lemma_fundamental_div_mod(
                self.x_velocity * dt,
                UNIT as int,
            );
            vstd::arithmetic::div_mod::lemma_fundamental_div_mod(
                self.y_velocity * dt,
                UNIT as int,
            );
        }
        (clamp_to_limit(self.x as i128 + dx), clamp_to_limit(self.y as i128 + dy))
    }

    pub fn flip_velocity_y(&mut self)
        requires
            old(self).wf(),
        ensures
            final(self).wf(),
            *final(self) == old(self).flipped_y(),
    {
        self.y_velocity = -self.y_velocity;
    }

    pub fn flip_velocity_x(&mut self)
        requires
            old(self).wf(),
        ensures
            final(self).wf(),
            *final(self) == old(self).flipped_x(),
    {
        self.x_velocity = -self.x_velocity;
    }

    /// Adds `factor` to the vertical velocity, held to `[-LIMIT, LIMIT]`.
    pub fn increase_velocity_y(&mut self, factor: i64)
        requires
            old(self).wf(),
        ensures
            final(self).wf(),
            *final(self) == old(self).sped_up_y(factor as int),
    {
        self.y_velocity = clamp_to_limit(self.y_velocity as i128 + factor as i128);
    }

    pub fn get_velocity_x(&self) -> (r: i64)
        ensures
            r == self.x_velocity,
    {
        self.x_velocity
    }

    pub fn set_velocity(&mut self, x_velocity: i64, y_velocity: i64)
        requires
            old(self).wf(),
            -LIMIT <= x_velocity <= LIMIT,
            -LIMIT <= y_velocity <= LIMIT,
        ensures
            final(self).wf(),
            *final(self) == old(self).with_velocity(x_velocity as int, y_velocity as int),
    {
        self.x_velocity = x_velocity;
        self.y_velocity = y_velocity;
    }
}

/// Negating a velocity component twice gives back the ball one started with.
pub proof fn lemma_flips_are_involutions(b: Ball)
    requires
        b.wf(),
    ensures
        b.flipped_y().flipped_y() == b,
        b.flipped_x().flipped_x() == b,
        b.flipped_y().wf(),
        b.flipped_x().wf(),
{
}

} // verus!
