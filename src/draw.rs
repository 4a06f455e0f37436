use vstd::prelude::*;
use crate::units::{UNIT, LIMIT};

verus! {

/// Display units (pixels) in one grid unit.
pub const PIXELS_PER_UNIT: i64 = 25;

/// The colours the scene is painted in.
#[derive(Clone, Copy, Debug, PartialEq, Eq, Structural)]
pub enum Color {
    /// Opaque white: borders, paddles, ball and text.
    White,
    /// Translucent red laid over the arena while a game is over.
    GameOver,
}

/// A filled rectangle in micro-pixels.
#[derive(Clone, Copy, Debug, PartialEq, Eq, Structural)]
pub struct Rect {
    pub color: Color,
    pub x: i64,
    pub y: i64,
    pub width: i64,
    pub height: i64,
}

/// The rectangle that `draw_rectangle(color, x, y, w, h)` describes.
pub open spec fn rect_at(color: Color, x: int, y: int, w: int, h: int) -> Rect {
    Rect {
        color,
        x: (x * PIXELS_PER_UNIT) as i64,
        y: (y * PIXELS_PER_UNIT) as i64,
        width: (w * UNIT * PIXELS_PER_UNIT) as i64,
        height: (h * UNIT * PIXELS_PER_UNIT) as i64,
    }
}

/// Converts a grid coordinate to a display coordinate (micro-units to micro-pixels).
pub fn to_coord(v: i64) -> (r: i64)
    requires
        -LIMIT <= v <= LIMIT,
    ensures
        r == v * PIXELS_PER_UNIT,
{
    v * PIXELS_PER_UNIT
}

/// A one-by-one grid cell at `(x, y)`.
pub fn draw_block(color: Color, x: i64, y: i64) -> (r: Rect)
    requires
        -LIMIT <= x <= LIMIT,
        -LIMIT <= y <= LIMIT,
    ensures
        r == rect_at(color, x as int, y as int, 1, 1),
{
    Rect {
        color,
        x: to_coord(x),
        y: to_coord(y),
        width: to_coord(UNIT),
        height: to_coord(UNIT),
    }
}

/// A rectangle of `width` by `height` grid cells anchored at `(x, y)`.
pub fn draw_rectangle(color: Color, x: i64, y: i64, width: i32, height: i32) -> (r: Rect)
    requires
        -LIMIT <= x <= LIMIT,
        -LIMIT <= y <= LIMIT,
    ensures
        r == rect_at(color, x as int, y as int, width as int, height as int),
{
    Rect {
        color,
        x: to_coord(x),
        y: to_coord(y),
        width: to_coord(width as i64 * UNIT),
        height: to_coord(height as i64 * UNIT),
    }
}

/// Horizontal display position of the score text (micro-pixels).
pub const TEXT_X: i64 = 10_000_000;

/// The character of decimal digit `d`.
pub open spec fn digit(d: int) -> char {
    if d == 0 {
        '0'
    } else if d == 1 {
        '1'
    } else if d == 2 {
        '2'
    } else if d == 3 {
        '3'
    } else if d == 4 {
        '4'
    } else if d == 5 {
        '5'
    } else if d == 6 {
        '6'
    } else if d == 7 {
        '7'
    } else if d == 8 {
        '8'
    } else {
        '9'
    }
}

/// `n` written in decimal, without leading zeros.
pub open spec fn decimal(n: nat) -> Seq<char>
    decreases n,
{
    if n < 10 {
        seq![digit(n as int)]
    } else {
        decimal(n / 10).push(digit((n % 10) as int))
    }
}

/// `n` written in decimal, with a minus sign when negative.
pub open spec fn signed_decimal(n: int) -> Seq<char> {
    if n < 0 {
        seq!['-'] + decimal((-n) as nat)
    } else {
        decimal(n as nat)
    }
}

/// The text that shows score `n`.
pub open spec fn score_text(n: int) -> Seq<char> {
    seq!['S', 'C', 'O', 'R', 'E', ':', ' '] + signed_decimal(n)
}

fn digit_char(d: u64) -> (c: char)
    requires
        d < 10,
    ensures
        c == digit(d as int),
{
    if d == 0 {
        '0'
    } else if d == 1 {
        '1'
    } else if d == 2 {
        '2'
    } else if d == 3 {
        '3'
    } else if d == 4 {
        '4'
    } else if d == 5 {
        '5'
    } else if d == 6 {
        '6'
    } else if d == 7 {
        '7'
    } else if d == 8 {
        '8'
    } else {
        '9'
    }
}

fn push_decimal(out: &mut Vec<char>, n: u64)
    ensures
        final(out)@ == old(out)@ + decimal(n as nat),
    decreases n,
{
    if n >= 10 {
        push_decimal(out, n / 10);
    }
    out.push(digit_char(n % 10));
    assert(out@ =~= old(out)@ + decimal(n as nat));
}

/// The score text for `score`: `SCORE: ` and the score in decimal.
pub fn score_label(score: i32) -> (r: Vec<char>)
    ensures
        r@ == score_text(score as int),
{
    let mut out: Vec<char> = vec!['S', 'C', 'O', 'R', 'E', ':', ' '];
    if score < 0 {
        out.push('-');
        push_decimal(&mut out, (-(score as i64)) as u64);
    } else {
        push_decimal(&mut out, score as u64);
    }
    assert(out@ =~= score_text(score as int));
    out
}

} // verus!
