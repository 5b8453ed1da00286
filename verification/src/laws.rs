use vstd::prelude::*;

verus! {

use crate::sim::{StateModel, InputState, GoalEvent, tick, tick_goal, paddle_hit_phase, move_phase,
    FIELD_HEIGHT, FIELD_CENTER_X, FIELD_CENTER_Y, START_VEL_X, START_VEL_Y, START_SPEED};

/// A sound state stays sound: one tick preserves well-formedness.
pub proof fn lemma_wf_preserved(m: StateModel, inp: InputState)
    requires
        m.wf(),
    ensures
        tick(m, inp).wf(),
{
}

/// While the moved ball stands strictly between the top and bottom field
/// edges and no goal falls, a tick leaves the vertical velocity unchanged.
pub proof fn lemma_vertical_velocity_kept(m: StateModel, inp: InputState)
    requires
        0 < move_phase(paddle_hit_phase(m)).ball.pos_y,
        move_phase(paddle_hit_phase(m)).ball.pos_y < FIELD_HEIGHT - m.ball.h,
        tick_goal(m) == GoalEvent::NoGoal,
    ensures
        tick(m, inp).ball.vel_y == m.ball.vel_y,
{
}

/// Within one tick the ball's speed never drops unless a goal falls, and a
/// goal puts it back to the serve speed.
pub proof fn lemma_speed_step(m: StateModel, inp: InputState)
    ensures
        tick_goal(m) == GoalEvent::NoGoal ==> tick(m, inp).ball.speed >= m.ball.speed,
        tick_goal(m) != GoalEvent::NoGoal ==> tick(m, inp).ball.speed == START_SPEED,
{
}

/// The state after a whole sequence of ticks, first input first.
pub open spec fn run_ticks(m: StateModel, inputs: Seq<InputState>) -> StateModel
    decreases inputs.len(),
{
    if inputs.len() == 0 {
        m
    } else {
        run_ticks(tick(m, inputs[0]), inputs.subrange(1, inputs.len() as int))
    }
}

/// No tick of the sequence sees a goal.
pub open spec fn goal_free(m: StateModel, inputs: Seq<InputState>) -> bool
    decreases inputs.len(),
{
    inputs.len() == 0 || (tick_goal(m) == GoalEvent::NoGoal && goal_free(
        tick(m, inputs[0]),
        inputs.subrange(1, inputs.len() as int),
    ))
}

/// Ball speed is monotonically non-decreasing across any sequence of ticks
/// in which no goal falls, paddle collisions included.
pub proof fn lemma_speed_monotone(m: StateModel, inputs: Seq<InputState>)
    requires
        goal_free(m, inputs),
    ensures
        run_ticks(m, inputs).ball.speed >= m.ball.speed,
    decreases inputs.len(),
{
    if inputs.len() > 0 {
        let next = tick(m, inputs[0]);
        lemma_speed_step(m, inputs[0]);
        lemma_speed_monotone(next, inputs.subrange(1, inputs.len() as int));
    }
}

/// After any goal event the ball stands at the field center with the serve
/// velocity and the serve speed, regardless of prior state.
pub proof fn lemma_goal_resets_ball(m: StateModel, inp: InputState)
    ensures
        tick_goal(m) != GoalEvent::NoGoal ==> tick(m, inp).ball.pos_x == FIELD_CENTER_X,
        tick_goal(m) != GoalEvent::NoGoal ==> tick(m, inp).ball.pos_y == FIELD_CENTER_Y,
        tick_goal(m) != GoalEvent::NoGoal ==> tick(m, inp).ball.vel_x == START_VEL_X,
        tick_goal(m) != GoalEvent::NoGoal ==> tick(m, inp).ball.vel_y == START_VEL_Y,
        tick_goal(m) != GoalEvent::NoGoal ==> tick(m, inp).ball.speed == START_SPEED,
{
}

/// A paddle that stands within the field never leaves it: after a tick its
/// vertical position is still within `[0, field height - paddle height]`.
pub proof fn lemma_paddles_stay_in_field(m: StateModel, inp: InputState)
    requires
        0 < m.player1.h <= FIELD_HEIGHT,
        0 <= m.player1.pos_y <= FIELD_HEIGHT - m.player1.h,
        0 < m.player2.h <= FIELD_HEIGHT,
        0 <= m.player2.pos_y <= FIELD_HEIGHT - m.player2.h,
    ensures
        0 <= tick(m, inp).player1.pos_y <= FIELD_HEIGHT - tick(m, inp).player1.h,
        0 <= tick(m, inp).player2.pos_y <= FIELD_HEIGHT - tick(m, inp).player2.h,
{
}

/// Scores are non-decreasing, and exactly one side's score increments per
/// goal event, never both.
pub proof fn lemma_scores(m: StateModel, inp: InputState)
    ensures
        tick_goal(m) == GoalEvent::NoGoal ==> tick(m, inp).player1.score == m.player1.score
            && tick(m, inp).player2.score == m.player2.score,
        tick_goal(m) == GoalEvent::LeftScores ==> tick(m, inp).player1.score == m.player1.score
            + 1 && tick(m, inp).player2.score == m.player2.score,
        tick_goal(m) == GoalEvent::RightScores ==> tick(m, inp).player1.score
            == m.player1.score && tick(m, inp).player2.score == m.player2.score + 1,
        tick(m, inp).player1.score >= m.player1.score,
        tick(m, inp).player2.score >= m.player2.score,
{
}


} // verus!
