use pingpong::ball::Ball;
use pingpong::draw::{Color, Rect};
use pingpong::game::{Game, Key};
use pingpong::paddle::Paddle;
use pingpong::UNIT;

fn arena() -> Game {
    Game::new(50, 55)
}

#[test]
fn new_game_layout() {
    let g = arena();
    assert_eq!(g.player, Paddle { x: 47 * UNIT, y: 10 * UNIT, size: 5 });
    assert_eq!(g.enemy, Paddle { x: 3 * UNIT, y: 14 * UNIT, size: 5 });
    assert_eq!(g.ball, Ball { x: 6 * UNIT, y: 9 * UNIT, x_velocity: 100 * UNIT, y_velocity: 0 });
    assert!(!g.game_over);
    assert_eq!(g.score, 0);
    assert_eq!(g.waiting_time, 0);
    assert_eq!(g.active_key, None);
}

#[test]
fn short_frames_only_accumulate() {
    let mut g = arena();
    g.update(50_000);
    g.update(20_000);
    assert_eq!(g.waiting_time, 70_000);
    g.update(10_000);
    assert_eq!(g.waiting_time, 80_000);
    assert_eq!(g.ball, Ball { x: 6 * UNIT, y: 9 * UNIT, x_velocity: 100 * UNIT, y_velocity: 0 });
    g.update(20_000);
    assert_eq!(g.waiting_time, 0);
    assert_eq!(g.ball.x, 8 * UNIT);
    assert_eq!(g.ball.y, 9 * UNIT);
}

#[test]
fn one_long_frame_makes_one_tick() {
    let mut g = arena();
    g.update(100_000);
    assert_eq!(g.ball.x, 16 * UNIT);
    assert_eq!(g.waiting_time, 0);
}

#[test]
fn held_key_moves_player() {
    let mut g = arena();
    g.key_pressed(Key::Up);
    g.update(100_000);
    assert_eq!(g.player.y, 9 * UNIT);
    g.key_pressed(Key::Down);
    g.update(100_000);
    g.update(100_000);
    assert_eq!(g.player.y, 11 * UNIT);
    g.key_pressed(Key::Other);
    g.update(100_000);
    assert_eq!(g.player.y, 11 * UNIT);
    g.key_pressed(Key::Up);
    g.key_released();
    assert_eq!(g.active_key, None);
    g.update(100_000);
    assert_eq!(g.player.y, 11 * UNIT);
}

#[test]
fn scoring_past_left_wall() {
    let mut g = arena();
    g.ball = Ball { x: UNIT, y: 20 * UNIT, x_velocity: -100 * UNIT, y_velocity: 0 };
    g.update(100_000);
    assert_eq!(g.score, 1);
    assert!(g.game_over);
    assert_eq!(g.ball, Ball { x: 6 * UNIT, y: 11 * UNIT, x_velocity: 100 * UNIT, y_velocity: 0 });
    assert_eq!(g.waiting_time, 0);
}

#[test]
fn leaving_past_right_wall_ends_without_point() {
    let mut g = arena();
    g.ball = Ball { x: 49 * UNIT, y: 30 * UNIT, x_velocity: 100 * UNIT, y_velocity: 0 };
    g.update(100_000);
    assert_eq!(g.score, 0);
    assert!(g.game_over);
    assert_eq!(g.ball, Ball { x: 49 * UNIT, y: 30 * UNIT, x_velocity: 100 * UNIT, y_velocity: 0 });
}

#[test]
fn restart_after_one_second() {
    let mut g = arena();
    g.ball = Ball { x: UNIT, y: 20 * UNIT, x_velocity: -100 * UNIT, y_velocity: 0 };
    g.update(100_000);
    assert!(g.game_over);
    let player = g.player;
    g.key_pressed(Key::Down);
    assert_eq!(g.active_key, None);
    g.update(500_000);
    g.update(500_000);
    assert!(g.game_over);
    assert_eq!(g.waiting_time, 1_000_000);
    assert_eq!(g.player, player);
    g.update(1);
    assert!(!g.game_over);
    assert_eq!(g.waiting_time, 0);
    assert_eq!(g.ball, Ball { x: 6 * UNIT, y: 27 * UNIT, x_velocity: 100 * UNIT, y_velocity: 0 });
    assert_eq!(g.score, 1);
}

#[test]
fn enemy_still_while_ball_moves_away() {
    let mut g = arena();
    g.ball = Ball { x: 20 * UNIT, y: 40 * UNIT, x_velocity: 10 * UNIT, y_velocity: 0 };
    for _ in 0..5 {
        g.update(100_000);
    }
    assert_eq!(g.enemy.y, 14 * UNIT);
}

#[test]
fn enemy_follows_ball_coming_toward_it() {
    let mut g = arena();
    g.ball = Ball { x: 30 * UNIT, y: 40 * UNIT, x_velocity: -10 * UNIT, y_velocity: 0 };
    g.update(100_000);
    assert_eq!(g.enemy.y, 15 * UNIT);
    g.ball = Ball { x: 30 * UNIT, y: 7 * UNIT, x_velocity: -10 * UNIT, y_velocity: 0 };
    g.update(100_000);
    assert_eq!(g.enemy.y, 14 * UNIT);
}

#[test]
fn ai_waits_for_its_response_time() {
    let mut g = arena();
    g.ai_update_time = 0;
    g.ball = Ball { x: 30 * UNIT, y: 40 * UNIT, x_velocity: -10 * UNIT, y_velocity: 0 };
    g.waiting_time = 80_000;
    g.update(5_000);
    assert_eq!(g.ai_update_time, 5_000);
    assert_eq!(g.enemy.y, 14 * UNIT);
}

#[test]
fn center_contact_only_reverses() {
    let mut g = arena();
    g.ball = Ball { x: 45 * UNIT, y: 12 * UNIT, x_velocity: 100 * UNIT, y_velocity: 0 };
    g.update_ball(20_000);
    assert_eq!(g.ball, Ball { x: 47 * UNIT, y: 12 * UNIT, x_velocity: -100 * UNIT, y_velocity: 0 });
}

#[test]
fn contact_above_center_adds_spin() {
    let mut g = arena();
    g.ball = Ball { x: 45 * UNIT, y: 11 * UNIT, x_velocity: 100 * UNIT, y_velocity: 0 };
    g.update_ball(20_000);
    assert_eq!(g.ball.x_velocity, -100 * UNIT);
    assert_eq!(g.ball.y_velocity, -20 * UNIT);
    let mut g = arena();
    g.ball = Ball { x: 45 * UNIT, y: 14 * UNIT + UNIT / 2, x_velocity: 100 * UNIT, y_velocity: 0 };
    g.update_ball(20_000);
    assert_eq!(g.ball.y_velocity, 50 * UNIT);
}

#[test]
fn enemy_contact_reverses() {
    let mut g = arena();
    g.ball = Ball { x: 6 * UNIT, y: 16 * UNIT, x_velocity: -100 * UNIT, y_velocity: 0 };
    g.update_ball(20_000);
    assert_eq!(g.ball, Ball { x: 4 * UNIT, y: 16 * UNIT, x_velocity: 100 * UNIT, y_velocity: 0 });
}

#[test]
fn wall_bounce_flips_vertical() {
    let mut g = arena();
    g.ball = Ball { x: 20 * UNIT, y: 6 * UNIT + UNIT / 2, x_velocity: 0, y_velocity: -100 * UNIT };
    g.update_ball(20_000);
    assert_eq!(g.ball, Ball { x: 20 * UNIT, y: 4 * UNIT + UNIT / 2, x_velocity: 0, y_velocity: 100 * UNIT });
    let mut g = arena();
    g.ball = Ball { x: 20 * UNIT, y: 53 * UNIT, x_velocity: 0, y_velocity: 100 * UNIT };
    g.update_ball(20_000);
    assert_eq!(g.ball.y_velocity, -100 * UNIT);
    assert_eq!(g.ball.y, 55 * UNIT);
}

#[test]
fn frame_while_playing() {
    let g = arena();
    let f = g.draw();
    assert_eq!(f.score, 0);
    assert_eq!(f.text_y, 125 * UNIT);
    assert_eq!(f.text_x, 10 * UNIT);
    assert_eq!(f.text_color, Color::White);
    assert_eq!(f.text.iter().collect::<String>(), "SCORE: 0");
    assert_eq!(f.rects.len(), 7);
    let white = |x: i64, y: i64, w: i64, h: i64| Rect { color: Color::White, x: x * UNIT, y: y * UNIT, width: w * UNIT, height: h * UNIT };
    assert_eq!(f.rects[0], white(1175, 250, 25, 125));
    assert_eq!(f.rects[1], white(75, 350, 25, 125));
    assert_eq!(f.rects[2], white(150, 225, 25, 25));
    assert_eq!(f.rects[3], white(0, 125, 1250, 25));
    assert_eq!(f.rects[4], white(0, 1350, 1250, 25));
    assert_eq!(f.rects[5], white(0, 125, 25, 1375));
    assert_eq!(f.rects[6], white(1225, 125, 25, 1375));
}

#[test]
fn frame_while_over() {
    let mut g = arena();
    g.ball = Ball { x: UNIT, y: 20 * UNIT, x_velocity: -100 * UNIT, y_velocity: 0 };
    g.update(100_000);
    let f = g.draw();
    assert_eq!(f.score, 1);
    assert_eq!(f.text.iter().collect::<String>(), "SCORE: 1");
    assert_eq!(f.rects.len(), 7);
    assert_eq!(f.rects[2].y, 125 * UNIT);
    assert_eq!(f.rects[6], Rect { color: Color::GameOver, x: 0, y: 125 * UNIT, width: 1250 * UNIT, height: 1375 * UNIT });
}

#[test]
fn ai_does_not_act_at_exact_response_time() {
    let mut g = arena();
    g.ball = Ball { x: 30 * UNIT, y: 40 * UNIT, x_velocity: -10 * UNIT, y_velocity: 0 };
    g.update_ai(10_000);
    assert_eq!(g.ai_update_time, 10_000);
    assert_eq!(g.enemy.y, 14 * UNIT);
    g.update_ai(1);
    assert_eq!(g.ai_update_time, 0);
    assert_eq!(g.enemy.y, 15 * UNIT);
}

#[test]
fn frame_scores_only_when_ball_leaves_left() {
    let mut g = arena();
    g.ball = Ball { x: UNIT, y: 20 * UNIT, x_velocity: -100 * UNIT, y_velocity: 0 };
    assert!(g.scores_on_frame(100_000));
    assert!(!g.scores_on_frame(50_000));
    g.ball = Ball { x: 49 * UNIT, y: 30 * UNIT, x_velocity: 100 * UNIT, y_velocity: 0 };
    assert!(!g.scores_on_frame(100_000));
}

#[test]
fn update_at_highest_score_without_point() {
    let mut g = arena();
    g.score = i32::MAX;
    g.update(100_000);
    assert_eq!(g.score, i32::MAX);
    assert_eq!(g.ball.x, 16 * UNIT);
}
