use pong_core::entities::{Ball, Paddle};
use pong_core::sim::{GameState, GoalEvent, InputState};

// A mid-rally state with nothing near anything: paddles 10 by 100 units at
// their start columns, ball 10 by 10 units at the field center.
fn base_state() -> GameState {
    GameState::new(100_000, 100_000, 100_000, 1_000_000, 100_000, 1_000_000)
}

fn keys(p1_up: bool, p1_down: bool, p2_up: bool, p2_down: bool, deflect: bool) -> InputState {
    InputState {
        player1_up: p1_up,
        player1_down: p1_down,
        player2_up: p2_up,
        player2_down: p2_down,
        deflect_pressed: deflect,
    }
}

#[test]
fn new_game_layout() {
    let g = base_state();
    assert_eq!(g.player1.pos_x, 160_000);
    assert_eq!(g.player1.pos_y, 1_900_000);
    assert_eq!(g.player2.pos_x, 6_140_000);
    assert_eq!(g.player2.pos_y, 1_900_000);
    assert_eq!(g.player1.score, 0);
    assert_eq!(g.player2.score, 0);
    assert_eq!(g.player1.great_shot, 10);
    assert_eq!(g.player2.great_shot, 10);
    assert_eq!(g.ball.pos_x, 3_200_000);
    assert_eq!(g.ball.pos_y, 2_400_000);
    assert_eq!(g.ball.vel_x, 15);
    assert_eq!(g.ball.vel_y, 25);
    assert_eq!(g.ball.speed, 10);
}

#[test]
fn idle_tick_moves_ball_exactly() {
    let mut g = base_state();
    let goal = g.update(InputState::idle());
    // displacement per axis: vel * speed * shot1 * shot2 subunits
    assert_eq!(goal, GoalEvent::NoGoal);
    assert_eq!(g.ball.pos_x, 3_200_000 + 15 * 10 * 10 * 10);
    assert_eq!(g.ball.pos_y, 2_400_000 + 25 * 10 * 10 * 10);
    assert_eq!(g.ball.vel_x, 15);
    assert_eq!(g.ball.vel_y, 25);
    assert_eq!(g.ball.speed, 10);
    assert_eq!(g.player1.score, 0);
    assert_eq!(g.player2.score, 0);
}

#[test]
fn vertical_velocity_kept_strictly_inside() {
    // The moved ball stays strictly between the field edges, so the
    // vertical velocity sign is unchanged.
    let mut g = base_state();
    g.ball.vel_y = -25;
    g.update(InputState::idle());
    assert_eq!(g.ball.vel_y, -25);
}

#[test]
fn left_paddle_hit_flips_x_velocity_and_adds_speed() {
    // Ball bounding box overlapping the left paddle's: the x velocity sign
    // flips and the speed grows by exactly one tenth.
    let mut g = base_state();
    g.ball.pos_x = 200_000;
    g.ball.pos_y = 2_000_000;
    g.ball.vel_x = -15;
    let goal = g.update(InputState::idle());
    assert_eq!(goal, GoalEvent::NoGoal);
    assert_eq!(g.ball.vel_x, 15);
    assert_eq!(g.ball.speed, 11);
    // The new velocity and speed already drive this tick's motion.
    assert_eq!(g.ball.pos_x, 200_000 + 15 * 11 * 10 * 10);
    assert_eq!(g.ball.pos_y, 2_000_000 + 25 * 11 * 10 * 10);
}

#[test]
fn right_paddle_hit_flips_x_velocity_and_adds_speed() {
    let mut g = base_state();
    g.ball.pos_x = 6_100_000;
    g.ball.pos_y = 2_000_000;
    let goal = g.update(InputState::idle());
    assert_eq!(goal, GoalEvent::NoGoal);
    assert_eq!(g.ball.vel_x, -15);
    assert_eq!(g.ball.speed, 11);
}

#[test]
fn paddle_hit_clears_opponent_boost() {
    // A hit on the left paddle clears the right paddle's armed boost.
    let mut g = base_state();
    g.ball.pos_x = 200_000;
    g.ball.pos_y = 2_000_000;
    g.ball.vel_x = -15;
    g.player2.great_shot = 30;
    g.update(InputState::idle());
    assert_eq!(g.player2.great_shot, 10);
}

#[test]
fn top_wall_bounce_flips_y_velocity() {
    let mut g = base_state();
    g.ball.pos_y = 10_000;
    g.ball.vel_y = -25;
    g.update(InputState::idle());
    // moved to 10_000 - 25_000 = -15_000, on or past the top edge
    assert_eq!(g.ball.pos_y, -15_000);
    assert_eq!(g.ball.vel_y, 25);
}

#[test]
fn bottom_wall_bounce_flips_y_velocity() {
    let mut g = base_state();
    // bottom edge for a 100_000-tall ball is 4_700_000
    g.ball.pos_y = 4_690_000;
    g.update(InputState::idle());
    // moved to 4_690_000 + 25_000 = 4_715_000, past the bottom edge
    assert_eq!(g.ball.pos_y, 4_715_000);
    assert_eq!(g.ball.vel_y, -25);
}

#[test]
fn ball_out_right_scores_left_player() {
    // Ball at (700, 240) world units on a 640-wide field: the left player
    // scores exactly once and the ball is served anew.
    let mut g = base_state();
    g.ball.pos_x = 7_000_000;
    g.ball.pos_y = 2_400_000;
    let goal = g.update(InputState::idle());
    assert_eq!(goal, GoalEvent::LeftScores);
    assert_eq!(g.player1.score, 1);
    assert_eq!(g.player2.score, 0);
    assert_eq!(g.ball.pos_x, 3_200_000);
    assert_eq!(g.ball.pos_y, 2_400_000);
    assert_eq!(g.ball.vel_x, 15);
    assert_eq!(g.ball.vel_y, 25);
    assert_eq!(g.ball.speed, 10);
}

#[test]
fn ball_out_left_scores_right_player() {
    let mut g = base_state();
    g.ball.pos_x = -500_000;
    g.ball.vel_x = -15;
    let goal = g.update(InputState::idle());
    assert_eq!(goal, GoalEvent::RightScores);
    assert_eq!(g.player1.score, 0);
    assert_eq!(g.player2.score, 1);
    assert_eq!(g.ball.pos_x, 3_200_000);
    assert_eq!(g.ball.speed, 10);
}

#[test]
fn goal_clears_both_boosts_and_speed() {
    let mut g = base_state();
    g.ball.pos_x = 7_000_000;
    g.ball.speed = 17;
    g.player1.great_shot = 30;
    g.player2.great_shot = 30;
    // both boosts drive this last displacement: 15 * 17 * 30 * 30
    let goal = g.update(InputState::idle());
    assert_eq!(goal, GoalEvent::LeftScores);
    assert_eq!(g.player1.great_shot, 10);
    assert_eq!(g.player2.great_shot, 10);
    assert_eq!(g.ball.speed, 10);
}

#[test]
fn exactly_one_side_scores_per_goal() {
    let mut g = base_state();
    g.ball.pos_x = 7_000_000;
    g.update(InputState::idle());
    assert_eq!(g.player1.score + g.player2.score, 1);
}

#[test]
fn speed_never_drops_until_goal_resets_it() {
    let mut g = base_state();
    // Park the ball on the left paddle so ticks keep hitting; the speed
    // must never drop while no goal falls.
    g.ball.pos_x = 200_000;
    g.ball.pos_y = 2_000_000;
    let mut last_speed = g.ball.speed;
    for _ in 0..5 {
        let goal = g.update(InputState::idle());
        if goal == GoalEvent::NoGoal {
            assert!(g.ball.speed >= last_speed);
        } else {
            assert_eq!(g.ball.speed, 10);
        }
        last_speed = g.ball.speed;
    }
}

#[test]
fn paddle_moves_by_one_step() {
    let mut g = base_state();
    g.update(keys(true, false, false, false, false));
    assert_eq!(g.player1.pos_y, 1_900_000 - 80_000);
    g.update(keys(false, true, false, false, false));
    assert_eq!(g.player1.pos_y, 1_900_000);
    g.update(keys(false, false, true, false, false));
    assert_eq!(g.player2.pos_y, 1_900_000 - 80_000);
    g.update(keys(false, false, false, true, false));
    assert_eq!(g.player2.pos_y, 1_900_000);
}

#[test]
fn paddle_clamps_at_top() {
    let mut g = base_state();
    g.player1.pos_y = 40_000;
    g.update(keys(true, false, false, false, false));
    assert_eq!(g.player1.pos_y, 0);
    // and it stays there under further presses
    g.update(keys(true, false, false, false, false));
    assert_eq!(g.player1.pos_y, 0);
}

#[test]
fn paddle_clamps_at_bottom_with_its_own_height() {
    let mut g = base_state();
    // the right paddle is 100 units tall: its lowest position is
    // 4_800_000 - 1_000_000
    g.player2.pos_y = 3_800_000 - 40_000;
    g.update(keys(false, false, false, true, false));
    assert_eq!(g.player2.pos_y, 3_800_000);
    g.update(keys(false, false, false, true, false));
    assert_eq!(g.player2.pos_y, 3_800_000);
}

#[test]
fn opposed_keys_cancel_in_open_field() {
    let mut g = base_state();
    g.update(keys(true, true, false, false, false));
    assert_eq!(g.player1.pos_y, 1_900_000);
}

#[test]
fn deflect_in_range_arms_right_boost() {
    // Deflect pressed while the ball is within 40 units of the right
    // paddle's column: the right paddle's shot multiplier becomes 3.0.
    let mut g = base_state();
    g.ball.pos_x = 5_800_000;
    let goal = g.update(keys(false, false, false, false, true));
    assert_eq!(goal, GoalEvent::NoGoal);
    assert_eq!(g.player2.great_shot, 30);
}

#[test]
fn deflect_out_of_range_changes_nothing() {
    let mut g = base_state();
    let goal = g.update(keys(false, false, false, false, true));
    assert_eq!(goal, GoalEvent::NoGoal);
    assert_eq!(g.player2.great_shot, 10);
}

#[test]
fn armed_boost_scales_displacement() {
    let mut g = base_state();
    g.player2.great_shot = 30;
    g.update(InputState::idle());
    assert_eq!(g.ball.pos_x, 3_200_000 + 15 * 10 * 10 * 30);
    assert_eq!(g.ball.pos_y, 2_400_000 + 25 * 10 * 10 * 30);
}

#[test]
fn serve_restores_ball_after_reinitialize() {
    let mut b = Ball::new(100_000, 100_000, 1, 2, -15, -25, 42);
    b.reinitialize_ball();
    assert_eq!(b.pos_x, 3_200_000);
    assert_eq!(b.pos_y, 2_400_000);
    assert_eq!(b.vel_x, 15);
    assert_eq!(b.vel_y, 25);
    assert_eq!(b.speed, 10);
    assert_eq!(b.width(), 100_000);
    assert_eq!(b.height(), 100_000);
}

#[test]
fn entity_bounds_follow_position_and_size() {
    let b = Ball::new(100_000, 200_000, 1_000, 2_000, 15, 25, 10);
    let r = b.bounds();
    assert_eq!((r.x, r.y, r.w, r.h), (1_000, 2_000, 100_000, 200_000));
    let p = Paddle::new(100_000, 1_000_000, 160_000, 1_900_000, 10, 0);
    let r = p.bounds();
    assert_eq!((r.x, r.y, r.w, r.h), (160_000, 1_900_000, 100_000, 1_000_000));
    assert_eq!(p.width(), 100_000);
    assert_eq!(p.height(), 1_000_000);
}

#[test]
fn goal_line_is_inclusive() {
    // Landing exactly on the margin line counts as a goal.
    let mut g = base_state();
    g.ball.pos_x = 6_800_000 - 15_000;
    let goal = g.update(InputState::idle());
    assert_eq!(goal, GoalEvent::LeftScores);
    assert_eq!(g.player1.score, 1);
}

#[test]
fn top_edge_is_inclusive_for_bounce() {
    // Landing exactly on the top edge already reflects the ball.
    let mut g = base_state();
    g.ball.pos_y = 25_000;
    g.ball.vel_y = -25;
    g.update(InputState::idle());
    assert_eq!(g.ball.pos_y, 0);
    assert_eq!(g.ball.vel_y, 25);
}

#[test]
fn full_height_paddle_cannot_move() {
    // A paddle as tall as the field is pinned to the top.
    let mut g = GameState::new(100_000, 100_000, 100_000, 4_800_000, 100_000, 1_000_000);
    assert_eq!(g.player1.pos_y, 0);
    g.update(keys(false, true, false, false, false));
    assert_eq!(g.player1.pos_y, 0);
    g.update(keys(true, false, false, false, false));
    assert_eq!(g.player1.pos_y, 0);
}

#[test]
fn deflect_range_boundary_is_strict() {
    // Exactly 40 units short of the right paddle's column does not arm the
    // boost; the ball must stand strictly past that line.
    let mut g = base_state();
    g.ball.pos_x = 5_740_000 - 15_000;
    g.update(keys(false, false, false, false, true));
    assert_eq!(g.player2.great_shot, 10);
    let mut g = base_state();
    g.ball.pos_x = 5_740_000 - 15_000 + 1;
    g.update(keys(false, false, false, false, true));
    assert_eq!(g.player2.great_shot, 30);
}
