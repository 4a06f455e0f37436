use vstd::prelude::*;
use crate::ball::Ball;
use crate::draw::{draw_rectangle, rect_at, score_label, score_text, to_coord, Color, Rect, PIXELS_PER_UNIT, TEXT_X};
use crate::paddle::{Direction, Paddle};
use crate::units::{ceil_to_unit, ceil_unit, clamp, floor_to_unit, floor_unit, UNIT};

verus! {

/// Height of the band above the arena that holds the score (micro-units).
pub const MARGIN_TOP: i64 = 5_000_000;

/// Time between two simulation ticks (microseconds).
pub const MOVING_PERIOD: u64 = 80_000;

/// Time from the end of a game to the next serve (microseconds).
pub const RESTART_TIME: u64 = 1_000_000;

/// Time between two decisions of the computer paddle (microseconds).
pub const AI_RESPONSE_TIME: u64 = 10_000;

/// Vertical velocity given per micro-unit of contact offset from a paddle's centre.
pub const SPIN: i64 = -20;

/// Length of both paddles, in grid units.
pub const PADDLE_SIZE: i32 = 5;

/// Horizontal speed of a served ball (micro-units per second).
pub const SERVE_SPEED: i64 = 100_000_000;

/// Vertical grid position of the score text (micro-units).
pub const SCORE_TEXT_Y: i64 = 5_000_000;

/// A key of the keyboard, as far as the game tells keys apart.
#[derive(Clone, Copy, Debug, PartialEq, Eq, Structural)]
pub enum Key {
    Up,
    Down,
    Other,
}

/// The whole state of a game.
pub struct Game {
    pub player: Paddle,
    pub enemy: Paddle,
    pub ball: Ball,
    pub width: i32,
    pub height: i32,
    pub game_over: bool,
    /// Time since the last tick, or since the game ended (microseconds).
    pub waiting_time: u64,
    pub ai_response_time: u64,
    /// Time since the computer paddle's last decision (microseconds).
    pub ai_update_time: u64,
    pub active_key: Option<Key>,
    pub score: i32,
}

/// What one frame shows: rectangles in painting order and the score text.
pub struct Frame {
    pub rects: Vec<Rect>,
    pub score: i32,
    /// The score text, `SCORE: ` and the score in decimal.
    pub text: Vec<char>,
    pub text_color: Color,
    /// Display position of the score text (micro-pixels).
    pub text_x: i64,
    pub text_y: i64,
}

/// Whether a ball at height `ny` lies along paddle `pad`.
pub open spec fn hits(pad: Paddle, ny: int) -> bool {
    pad.y <= ny <= pad.y + pad.size * UNIT
}

/// Vertical velocity added by a contact with `pad` at height `ny`.
pub open spec fn spin(pad: Paddle, ny: int) -> int {
    (pad.y + (pad.size / 2) * UNIT - ny) * SPIN
}

/// The ball after a contact with `pad` at height `ny`.
pub open spec fn bounced(b: Ball, pad: Paddle, ny: int) -> Ball {
    b.flipped_x().sped_up_y(spin(pad, ny))
}

/// `h / 2`, rounded toward zero.
pub open spec fn half(h: int) -> int {
    if h >= 0 {
        h / 2
    } else {
        -((-h) / 2)
    }
}

/// The ball as served after a point is scored.
pub open spec fn served_ball() -> Ball {
    Ball { x: (6 * UNIT) as i64, y: (6 * UNIT + MARGIN_TOP) as i64, x_velocity: SERVE_SPEED, y_velocity: 0 }
}

/// The ball as served when a new game starts in an arena `height` units tall.
pub open spec fn restart_ball(height: int) -> Ball {
    Ball { x: (6 * UNIT) as i64, y: (half(height) * UNIT) as i64, x_velocity: SERVE_SPEED, y_velocity: 0 }
}

/// The game as it starts in a `width` by `height` arena.
pub open spec fn initial(width: i32, height: i32) -> Game {
    Game {
        player: Paddle { x: ((width - 3) * UNIT) as i64, y: (MARGIN_TOP + 5 * UNIT) as i64, size: PADDLE_SIZE },
        enemy: Paddle { x: (3 * UNIT) as i64, y: (MARGIN_TOP + 9 * UNIT) as i64, size: PADDLE_SIZE },
        ball: Ball { x: (6 * UNIT) as i64, y: (MARGIN_TOP + 4 * UNIT) as i64, x_velocity: SERVE_SPEED, y_velocity: 0 },
        width,
        height,
        game_over: false,
        waiting_time: 0,
        ai_response_time: AI_RESPONSE_TIME,
        ai_update_time: 0,
        active_key: None,
        score: 0,
    }
}

/// The direction a held key moves the player's paddle in.
pub open spec fn key_direction(key: Option<Key>) -> Option<Direction> {
    match key {
        Some(Key::Up) => Some(Direction::Up),
        Some(Key::Down) => Some(Direction::Down),
        _ => None,
    }
}

impl Game {
    pub open spec fn wf(&self) -> bool {
        &&& self.player.wf()
        &&& self.enemy.wf()
        &&& self.ball.wf()
        &&& self.ai_response_time == AI_RESPONSE_TIME
        &&& self.ai_update_time <= self.ai_response_time
        &&& self.waiting_time <= if self.game_over {
            RESTART_TIME
        } else {
            MOVING_PERIOD
        }
    }

    /// Whether a ball at horizontal position `nx` has left the arena.
    pub open spec fn out_of_bounds(&self, nx: int) -> bool {
        nx < 0 || self.width * UNIT < nx
    }

    /// Whether a ball at height `ny` is beyond the top or bottom wall.
    pub open spec fn wall_hit(&self, ny: int) -> bool {
        ny < MARGIN_TOP + UNIT || (self.height - 1) * UNIT < ny
    }

    /// Whether a ball at `(nx, ny)` meets the player's paddle.
    pub open spec fn player_hit(&self, nx: int, ny: int) -> bool {
        self.player.x - UNIT <= floor_unit(nx) && hits(self.player, ny)
    }

    /// Whether a ball at `(nx, ny)` meets the computer's paddle.
    pub open spec fn enemy_hit(&self, nx: int, ny: int) -> bool {
        ceil_unit(nx) <= self.enemy.x + UNIT && hits(self.enemy, ny)
    }

    /// The ball after it moves to `(nx, ny)` within the arena, with its bounces.
    pub open spec fn ball_moved(&self, nx: int, ny: int) -> Ball {
        let b1 = if self.wall_hit(ny) {
            self.ball.flipped_y()
        } else {
            self.ball
        };
        let b2 = if self.player_hit(nx, ny) {
            bounced(b1, self.player, ny)
        } else {
            b1
        };
        let b3 = if self.enemy_hit(nx, ny) {
            bounced(b2, self.enemy, ny)
        } else {
            b2
        };
        b3.moved_to(nx, ny)
    }

    /// Whether the ball's part of a tick of `dt` microseconds scores a point:
    /// the ball leaves the arena at or before the player's line.
    pub open spec fn ball_scores(&self, dt: int) -> bool {
        let nx = self.ball.next_location(dt).0;
        self.out_of_bounds(nx) && nx <= self.player.x + UNIT
    }

    /// Whether a frame of `dt` microseconds scores a point.
    pub open spec fn scores_on(&self, dt: int) -> bool {
        !self.game_over && self.waiting_time + dt > MOVING_PERIOD && self.ball_scores(dt)
    }

    /// The game after the ball's part of a tick of `dt` microseconds.
    pub open spec fn ball_step(self, dt: int) -> Game {
        let (nx, ny) = self.ball.next_location(dt);
        if self.out_of_bounds(nx) {
            if nx <= self.player.x + UNIT {
                Game { game_over: true, ball: served_ball(), score: (self.score + 1) as i32, ..self }
            } else {
                Game { game_over: true, ..self }
            }
        } else if self.game_over {
            self
        } else {
            Game { ball: self.ball_moved(nx, ny), ..self }
        }
    }

    /// The game after the player's paddle follows the held key.
    pub open spec fn player_step(self) -> Game {
        Game {
            player: self.player.slide_to(
                key_direction(self.active_key),
                MARGIN_TOP as int,
                self.height * UNIT,
            ),
            ..self
        }
    }

    /// Where the computer moves its paddle, looking `dt` microseconds ahead.
    pub open spec fn ai_direction(&self, dt: int) -> Option<Direction> {
        if self.ball.x_velocity < 0 {
            let ny = self.ball.next_location(dt).1;
            if ny < self.enemy.y {
                Some(Direction::Up)
            } else if self.enemy.y + self.enemy.size * UNIT < ny {
                Some(Direction::Down)
            } else {
                None
            }
        } else {
            None
        }
    }

    /// The game after the computer's part of a tick of `dt` microseconds.
    pub open spec fn ai_step(self, dt: int) -> Game {
        if self.ai_update_time + dt <= self.ai_response_time {
            Game { ai_update_time: (self.ai_update_time + dt) as u64, ..self }
        } else {
            Game {
                ai_update_time: 0,
                enemy: self.enemy.slide_to(self.ai_direction(dt), MARGIN_TOP as int, self.height * UNIT),
                ..self
            }
        }
    }

    /// The game as a new round starts after a game over.
    pub open spec fn restarted(self) -> Game {
        Game { waiting_time: 0, ball: restart_ball(self.height as int), game_over: false, ..self }
    }

    /// The game after a frame in which `dt` microseconds passed.
    pub open spec fn stepped(self, dt: int) -> Game {
        if self.game_over {
            if self.waiting_time + dt > RESTART_TIME {
                self.restarted()
            } else {
                Game { waiting_time: (self.waiting_time + dt) as u64, ..self }
            }
        } else if self.waiting_time + dt > MOVING_PERIOD {
            Game { waiting_time: 0, ..self.ball_step(dt).player_step().ai_step(dt) }
        } else {
            Game { waiting_time: (self.waiting_time + dt) as u64, ..self }
        }
    }

    /// Everything one frame paints, in order.
    pub open spec fn scene(&self) -> Seq<Rect> {
        let w = self.width as int;
        let h = self.height as int;
        let pieces = seq![
            rect_at(Color::White, self.player.x as int, self.player.y as int, 1, self.player.size as int),
            rect_at(Color::White, self.enemy.x as int, self.enemy.y as int, 1, self.enemy.size as int),
        ];
        let shown = if self.game_over {
            pieces
        } else {
            pieces.push(rect_at(Color::White, self.ball.x as int, self.ball.y as int, 1, 1))
        };
        let framed = shown + seq![
            rect_at(Color::White, 0, MARGIN_TOP as int, w, 1),
            rect_at(Color::White, 0, (h - 1) * UNIT, w, 1),
            rect_at(Color::White, 0, MARGIN_TOP as int, 1, h),
            rect_at(Color::White, (w - 1) * UNIT, MARGIN_TOP as int, 1, h),
        ];
        if self.game_over {
            framed.push(rect_at(Color::GameOver, 0, MARGIN_TOP as int, w, h))
        } else {
            framed
        }
    }

    pub fn new(width: i32, height: i32) -> (r: Self)
        ensures
            r.wf(),
            r == initial(width, height),
    {
        Self {
            player: Paddle::new((width as i64 - 3) * UNIT, MARGIN_TOP + 5 * UNIT, PADDLE_SIZE),
            enemy: Paddle::new(3 * UNIT, MARGIN_TOP + 9 * UNIT, PADDLE_SIZE),
            waiting_time: 0,
            ai_response_time: AI_RESPONSE_TIME,
            ai_update_time: 0,
            ball: Ball::new(6 * UNIT, MARGIN_TOP + 4 * UNIT, SERVE_SPEED, 0),
            width,
            height,
            game_over: false,
            active_key: None,
            score: 0,
        }
    }

    /// Makes `key` the held key, unless the game is over.
    pub fn key_pressed(&mut self, key: Key)
        requires
            old(self).wf(),
        ensures
            final(self).wf(),
            *final(self) == if old(self).game_over {
                *old(self)
            } else {
                Game { active_key: Some(key), ..*old(self) }
            },
    {
        if self.game_over {
            return;
        }
        self.active_key = Some(key);
    }

    /// Forgets the held key, whichever key was released.
    pub fn key_released(&mut self)
        requires
            old(self).wf(),
        ensures
            final(self).wf(),
            *final(self) == (Game { active_key: None, ..*old(self) }),
    {
        self.active_key = None;
    }

    /// Moves the ball through one tick of `delta_time` microseconds: ends the
    /// game when it leaves the arena (scoring when it left past the player's
    /// line), else bounces it off the walls and paddles and moves it.
    pub fn update_ball(&mut self, delta_time: u64)
        requires
            old(self).wf(),
            old(self).score < i32::MAX || !old(self).ball_scores(delta_time as int),
        ensures
            final(self).wf(),
            *final(self) == old(self).ball_step(delta_time as int),
    {
        let (next_x, next_y) = self.ball.get_next_location(delta_time);

        if next_x < 0 || (self.width as i64) * UNIT < next_x {
            self.game_over = true;
            if next_x <= self.player.get_position_x() + UNIT {
                self.ball.set_velocity(SERVE_SPEED, 0);
                self.ball.set_position(6 * UNIT, 6 * UNIT + MARGIN_TOP);
                self.score = self.score + 1;
            }
        }
        if self.game_over {
            return;
        }

        if next_y < MARGIN_TOP + UNIT || (self.height as i64 - 1) * UNIT < next_y {
            self.ball.flip_velocity_y();
        }

        let player_y: i64 = self.player.get_position_y();
        let player_size: i32 = self.player.get_size();
        if self.player.get_position_x() - UNIT <= floor_to_unit(next_x) && player_y <= next_y
            && next_y <= player_y + player_size as i64 * UNIT {
            let paddle_center: i64 = player_y + (player_size / 2) as i64 * UNIT;
            let distance_from_center: i64 = paddle_center - next_y;
            self.ball.flip_velocity_x();
            self.ball.increase_velocity_y(distance_from_center * SPIN);
        }

        let enemy_y: i64 = self.enemy.get_position_y();
        let enemy_size: i32 = self.enemy.get_size();
        if ceil_to_unit(next_x) <= self.enemy.get_position_x() + UNIT && enemy_y <= next_y
            && next_y <= enemy_y + enemy_size as i64 * UNIT {
            let paddle_center: i64 = enemy_y + (enemy_size / 2) as i64 * UNIT;
            let distance_from_center: i64 = paddle_center - next_y;
            self.ball.flip_velocity_x();
            self.ball.increase_velocity_y(distance_from_center * SPIN);
        }

        self.ball.set_position(next_x, next_y);
    }

    fn update_player(&mut self, direction: Option<Direction>)
        requires
            old(self).wf(),
        ensures
            final(self).wf(),
            *final(self) == (Game {
                player: old(self).player.slide_to(direction, MARGIN_TOP as int, old(self).height * UNIT),
                ..*old(self)
            }),
    {
        self.player.slide(direction, MARGIN_TOP, self.height as i64 * UNIT);
    }

    /// The computer's part of a tick: once its waited time passes its response
    /// time, it moves its paddle toward where the ball is heading.
    pub fn update_ai(&mut self, delta_time: u64)
        requires
            old(self).wf(),
        ensures
            final(self).wf(),
            *final(self) == old(self).ai_step(delta_time as int),
    {
        if delta_time <= self.ai_response_time - self.ai_update_time {
            self.ai_update_time = self.ai_update_time + delta_time;
            return;
        }
        self.ai_update_time = 0;
        let direction = if self.ball.get_velocity_x() < 0 {
            let (_, next_y) = self.ball.get_next_location(delta_time);
            if next_y < self.enemy.get_position_y() {
                Some(Direction::Up)
            } else if self.enemy.get_position_y() + self.enemy.get_size() as i64 * UNIT < next_y {
                Some(Direction::Down)
            } else {
                None
            }
        } else {
            None
        };
        self.enemy.slide(direction, MARGIN_TOP, self.height as i64 * UNIT);
    }

    fn restart(&mut self)
        requires
            old(self).wf(),
        ensures
            final(self).wf(),
            *final(self) == old(self).restarted(),
    {
        self.waiting_time = 0;
        self.ball.set_velocity(SERVE_SPEED, 0);
        self.ball.set_position(6 * UNIT, (self.height / 2) as i64 * UNIT);
        self.game_over = false;
    }

    /// Whether a frame of `delta_time` microseconds would score a point.
    pub fn scores_on_frame(&self, delta_time: u64) -> (r: bool)
        requires
            self.wf(),
        ensures
            r == self.scores_on(delta_time as int),
    {
        if self.game_over || delta_time <= MOVING_PERIOD - self.waiting_time {
            return false;
        }
        let (next_x, _) = self.ball.get_next_location(delta_time);
        (next_x < 0 || (self.width as i64) * UNIT < next_x) && next_x <= self.player.x + UNIT
    }

    fn get_direction(&self) -> (r: Option<Direction>)
        ensures
            r == key_direction(self.active_key),
    {
        match self.active_key {
            Some(Key::Up) => Some(Direction::Up),
            Some(Key::Down) => Some(Direction::Down),
            _ => None,
        }
    }

    /// Advances the game by a frame in which `delta_time` microseconds passed.
    pub fn update(&mut self, delta_time: u64)
        requires
            old(self).wf(),
            old(self).score < i32::MAX || !old(self).scores_on(delta_time as int),
        ensures
            final(self).wf(),
            *final(self) == old(self).stepped(delta_time as int),
    {
        if self.game_over {
            if delta_time > RESTART_TIME - self.waiting_time {
                self.restart();
            } else {
                self.waiting_time = self.waiting_time + delta_time;
            }
            return;
        }
        if delta_time > MOVING_PERIOD - self.waiting_time {
            self.update_ball(delta_time);
            let direction = self.get_direction();
            self.update_player(direction);
            self.update_ai(delta_time);
            self.waiting_time = 0;
        } else {
            self.waiting_time = self.waiting_time + delta_time;
        }
    }

    /// The frame that shows the game: paddles, the ball while in play, the
    /// border, the score, and a red veil while the game is over.
    pub fn draw(&self) -> (r: Frame)
        requires
            self.wf(),
        ensures
            r.rects@ == self.scene(),
            r.score == self.score,
            r.text@ == score_text(self.score as int),
            r.text_color == Color::White,
            r.text_x == TEXT_X,
            r.text_y == SCORE_TEXT_Y * PIXELS_PER_UNIT,
    {
        let mut rects: Vec<Rect> = Vec::new();
        rects.push(self.player.draw());
        rects.push(self.enemy.draw());
        if !self.game_over {
            rects.push(self.ball.draw());
        }
        let bottom: i64 = (self.height as i64 - 1) * UNIT;
        let right: i64 = (self.width as i64 - 1) * UNIT;
        rects.push(draw_rectangle(Color::White, 0, MARGIN_TOP, self.width, 1));
        rects.push(draw_rectangle(Color::White, 0, bottom, self.width, 1));
        rects.push(draw_rectangle(Color::White, 0, MARGIN_TOP, 1, self.height));
        rects.push(draw_rectangle(Color::White, right, MARGIN_TOP, 1, self.height));
        if self.game_over {
            rects.push(draw_rectangle(Color::GameOver, 0, MARGIN_TOP, self.width, self.height));
        }
        assert(rects@ =~= self.scene());
        Frame {
            rects,
            score: self.score,
            text: score_label(self.score),
            text_color: Color::White,
            text_x: TEXT_X,
            text_y: to_coord(SCORE_TEXT_Y),
        }
    }
}

/// The game after frames of the given lengths, in order.
pub open spec fn run(g: Game, dts: Seq<u64>) -> Game
    decreases dts.len(),
{
    if dts.len() == 0 {
        g
    } else {
        run(g.stepped(dts[0] as int), dts.drop_first())
    }
}

/// The game after the computer's steps of the given lengths, in order.
pub open spec fn ai_run(g: Game, dts: Seq<u64>) -> Game
    decreases dts.len(),
{
    if dts.len() == 0 {
        g
    } else {
        ai_run(g.ai_step(dts[0] as int), dts.drop_first())
    }
}

/// The sum of the given durations.
pub open spec fn total(dts: Seq<u64>) -> int
    decreases dts.len(),
{
    if dts.len() == 0 {
        0
    } else {
        dts[0] + total(dts.drop_first())
    }
}

proof fn lemma_total_nonneg(dts: Seq<u64>)
    ensures
        total(dts) >= 0,
    decreases dts.len(),
{
    if dts.len() > 0 {
        lemma_total_nonneg(dts.drop_first());
    }
}

/// While play goes on, frames that together last no longer than a tick
/// period change nothing but the waiting time; the frame that takes the
/// waiting time past the period makes exactly one tick and resets it.
pub proof fn lemma_tick_cadence(g: Game, dts: Seq<u64>, dt: u64)
    requires
        g.wf(),
        !g.game_over,
    ensures
        g.waiting_time + total(dts) <= MOVING_PERIOD ==> run(g, dts) == (Game {
            waiting_time: (g.waiting_time + total(dts)) as u64,
            ..g
        }),
        g.waiting_time + dt > MOVING_PERIOD ==> g.stepped(dt as int) == (Game {
            waiting_time: 0,
            ..g.ball_step(dt as int).player_step().ai_step(dt as int)
        }),
    decreases dts.len(),
{
    if dts.len() > 0 && g.waiting_time + total(dts) <= MOVING_PERIOD {
        lemma_total_nonneg(dts.drop_first());
        let next = Game { waiting_time: (g.waiting_time + dts[0]) as u64, ..g };
        assert(g.stepped(dts[0] as int) == next);
        lemma_tick_cadence(next, dts.drop_first(), dt);
    }
}

/// Once a game is over, frames that together last no longer than the
/// restart time change nothing but the waiting time; the frame that takes it
/// past the restart time serves a new ball, clears the game over and resets
/// the waiting time.
pub proof fn lemma_restart_sequencing(g: Game, dts: Seq<u64>, dt: u64)
    requires
        g.wf(),
        g.game_over,
    ensures
        g.waiting_time + total(dts) <= RESTART_TIME ==> run(g, dts) == (Game {
            waiting_time: (g.waiting_time + total(dts)) as u64,
            ..g
        }),
        g.waiting_time + dt > RESTART_TIME ==> {
            let r = g.stepped(dt as int);
            &&& !r.game_over
            &&& r.waiting_time == 0
            &&& r.ball == restart_ball(g.height as int)
            &&& r.ball.x == 6 * UNIT
            &&& r.ball.x_velocity == SERVE_SPEED
            &&& r.ball.y_velocity == 0
            &&& r.player == g.player
            &&& r.enemy == g.enemy
            &&& r.score == g.score
        },
    decreases dts.len(),
{
    if dts.len() > 0 && g.waiting_time + total(dts) <= RESTART_TIME {
        lemma_total_nonneg(dts.drop_first());
        let next = Game { waiting_time: (g.waiting_time + dts[0]) as u64, ..g };
        assert(g.stepped(dts[0] as int) == next);
        lemma_restart_sequencing(next, dts.drop_first(), dt);
    }
}

/// A tick in which the ball leaves the arena at or before the player's line
/// scores exactly one point, serves the ball again and ends the game.
pub proof fn lemma_scoring(g: Game, dt: u64)
    requires
        g.wf(),
        !g.game_over,
        g.score < i32::MAX,
        g.waiting_time + dt > MOVING_PERIOD,
        g.out_of_bounds(g.ball.next_location(dt as int).0),
        g.ball.next_location(dt as int).0 <= g.player.x + UNIT,
    ensures
        g.ball_step(dt as int).score == g.score + 1,
        g.ball_step(dt as int).ball == served_ball(),
        g.ball_step(dt as int).game_over,
        g.stepped(dt as int).score == g.score + 1,
        g.stepped(dt as int).ball == served_ball(),
        g.stepped(dt as int).ball.x == 6 * UNIT,
        g.stepped(dt as int).ball.y == 6 * UNIT + MARGIN_TOP,
        g.stepped(dt as int).ball.x_velocity == SERVE_SPEED,
        g.stepped(dt as int).ball.y_velocity == 0,
        g.stepped(dt as int).game_over,
{
}

/// Within the arena and away from the walls and the computer's paddle, a
/// ball that meets the player's paddle moves to its next location, reverses
/// its horizontal velocity and gains `(centre - contact) * SPIN` of vertical
/// velocity (capped at `LIMIT`); at the centre its vertical velocity is kept.
pub proof fn lemma_player_contact(g: Game, dt: u64)
    requires
        g.wf(),
        !g.game_over,
        !g.out_of_bounds(g.ball.next_location(dt as int).0),
        !g.wall_hit(g.ball.next_location(dt as int).1),
        g.player_hit(g.ball.next_location(dt as int).0, g.ball.next_location(dt as int).1),
        !g.enemy_hit(g.ball.next_location(dt as int).0, g.ball.next_location(dt as int).1),
    ensures
        ({
            let (nx, ny) = g.ball.next_location(dt as int);
            let r = g.ball_step(dt as int);
            &&& !r.game_over
            &&& r.score == g.score
            &&& r.ball.x == nx
            &&& r.ball.y == ny
            &&& r.ball.x_velocity == -g.ball.x_velocity
            &&& r.ball.y_velocity == clamp(g.ball.y_velocity + (g.player.y + (g.player.size / 2) * UNIT - ny) * SPIN)
            &&& ny == g.player.y + (g.player.size / 2) * UNIT ==> r.ball.y_velocity == g.ball.y_velocity
        }),
{
}

/// While the ball does not move toward the computer's side, the computer's
/// paddle stays where it is, however many of its steps pass.
pub proof fn lemma_ai_passive(g: Game, dts: Seq<u64>)
    requires
        g.ball.x_velocity >= 0,
    ensures
        ai_run(g, dts).enemy == g.enemy,
        ai_run(g, dts).ball == g.ball,
    decreases dts.len(),
{
    if dts.len() > 0 {
        lemma_ai_passive(g.ai_step(dts[0] as int), dts.drop_first());
    }
}

/// A contact at a paddle's centre only reverses the ball's horizontal
/// velocity; one a grid unit above the centre also lowers its vertical
/// velocity by twenty grid units per second.
pub proof fn lemma_center_contact(b: Ball, pad: Paddle)
    requires
        b.wf(),
        pad.wf(),
    ensures
        spin(pad, pad.y + (pad.size / 2) * UNIT) == 0,
        bounced(b, pad, pad.y + (pad.size / 2) * UNIT) == b.flipped_x(),
        spin(pad, pad.y + (pad.size / 2) * UNIT - UNIT) == -20 * UNIT,
        bounced(b, pad, pad.y + (pad.size / 2) * UNIT - UNIT) == b.flipped_x().sped_up_y(
            -20 * UNIT,
        ),
{
}

} // verus!
