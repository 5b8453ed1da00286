use vstd::prelude::*;

verus! {

use crate::entities::{Ball, BallModel, Paddle, PaddleModel};

// ---------------------------------------------------------------------------
// Fixed-point units
//
// Positions and sizes are in subunits: SCALE subunits per world unit.
// Velocity components, the ball's speed and the shot multipliers are in
// tenths of a unit. A displacement is the product of one velocity
// component and the three multiplier-like factors, four tenths in all,
// which lands exactly in subunits.
// ---------------------------------------------------------------------------

/// Subunits per world unit.
pub const SCALE: i64 = 10_000;

/// Field width: 640 world units.
pub const FIELD_WIDTH: i64 = 6_400_000;

/// Field height: 480 world units.
pub const FIELD_HEIGHT: i64 = 4_800_000;

/// Half the field width: where the ball is served.
pub const FIELD_CENTER_X: i64 = 3_200_000;

/// Half the field height.
pub const FIELD_CENTER_Y: i64 = 2_400_000;

/// Paddle movement per held key per tick: 8 world units.
pub const PADDLE_STEP: i64 = 80_000;

/// How far past a field edge the ball must travel for a goal: 40 units.
pub const GOAL_MARGIN: i64 = 400_000;

/// How close (along x) the ball must be to the right paddle for the
/// deflect gesture to arm the boost: 40 units.
pub const DEFLECT_RANGE: i64 = 400_000;

/// Horizontal inset of each paddle from its field edge: 16 units.
pub const PADDLE_OFFSET_X: i64 = 160_000;

/// Serve velocity, in tenths: (1.5, 2.5) units per tick.
pub const START_VEL_X: i64 = 15;

pub const START_VEL_Y: i64 = 25;

/// Serve speed, in tenths: 1.0.
pub const START_SPEED: i64 = 10;

/// Speed gained per paddle hit, in tenths: 0.1.
pub const SPEED_INCREMENT: i64 = 1;

/// Shot multiplier at rest, in tenths: 1.0.
pub const SHOT_NORMAL: i64 = 10;

/// Shot multiplier while the deflect boost is armed, in tenths: 3.0.
pub const SHOT_BOOST: i64 = 30;

// Machine limits: bounds under which one tick provably stays within i64.
// They are far beyond anything the game reaches (VEL_LIMIT is 100,000
// units per tick, SPEED_LIMIT a million paddle hits without a goal).

pub const VEL_LIMIT: i64 = 1_000_000;

pub const SPEED_LIMIT: i64 = 10_000_000;

pub const BALL_POS_LIMIT: i64 = 100_000_000_000;

// ---------------------------------------------------------------------------
// Input and events
// ---------------------------------------------------------------------------

/// The keyboard state a tick acts on: the four held movement keys and the
/// discrete deflect key-press event.
#[derive(Clone, Copy, PartialEq, Eq, Structural, Debug)]
pub struct InputState {
    pub player1_up: bool,
    pub player1_down: bool,
    pub player2_up: bool,
    pub player2_down: bool,
    pub deflect_pressed: bool,
}

impl InputState {
    /// No key held, no deflect press.
    pub fn idle() -> (r: InputState)
        ensures
            r == (InputState {
                player1_up: false,
                player1_down: false,
                player2_up: false,
                player2_down: false,
                deflect_pressed: false,
            }),
    {
        InputState {
            player1_up: false,
            player1_down: false,
            player2_up: false,
            player2_down: false,
            deflect_pressed: false,
        }
    }
}

/// What a tick did about goals: the ball left the field on the right
/// (player 1 scores), on the left (player 2 scores), or stayed in play.
#[derive(Clone, Copy, PartialEq, Eq, Structural, Debug)]
pub enum GoalEvent {
    NoGoal,
    LeftScores,
    RightScores,
}

// ---------------------------------------------------------------------------
// The state and its mathematical model
// ---------------------------------------------------------------------------

/// Mathematical value of a [`GameState`].
pub struct StateModel {
    pub player1: PaddleModel,
    pub player2: PaddleModel,
    pub ball: BallModel,
}

/// The whole game: the left paddle (player 1), the right paddle
/// (player 2) and the ball.
#[derive(Clone, Copy, PartialEq, Eq, Structural, Debug)]
pub struct GameState {
    pub player1: Paddle,
    pub player2: Paddle,
    pub ball: Ball,
}

impl View for GameState {
    type V = StateModel;

    open spec fn view(&self) -> StateModel {
        StateModel { player1: self.player1@, player2: self.player2@, ball: self.ball@ }
    }
}

impl PaddleModel {
    /// Structural soundness of a paddle: its asset fits the field, it
    /// stands inside the field vertically and near it horizontally, its
    /// shot multiplier is one of the two legal values, and its score is a
    /// count.
    pub open spec fn wf(self) -> bool {
        &&& 0 < self.w <= FIELD_WIDTH
        &&& 0 < self.h <= FIELD_HEIGHT
        &&& -FIELD_WIDTH <= self.pos_x <= FIELD_WIDTH
        &&& 0 <= self.pos_y <= FIELD_HEIGHT - self.h
        &&& self.great_shot == SHOT_NORMAL || self.great_shot == SHOT_BOOST
        &&& 0 <= self.score
    }
}

impl BallModel {
    /// Structural soundness of the ball: its asset fits the field, its
    /// velocity is bounded and its speed never drops under the serve
    /// speed. The position is left free: a tick takes the ball anywhere
    /// and a goal brings it back.
    pub open spec fn wf(self) -> bool {
        &&& 0 < self.w <= FIELD_WIDTH
        &&& 0 < self.h <= FIELD_HEIGHT
        &&& -VEL_LIMIT <= self.vel_x <= VEL_LIMIT
        &&& -VEL_LIMIT <= self.vel_y <= VEL_LIMIT
        &&& START_SPEED <= self.speed
    }
}

impl StateModel {
    pub open spec fn wf(self) -> bool {
        &&& self.player1.wf()
        &&& self.player2.wf()
        &&& self.ball.wf()
    }
}

// ---------------------------------------------------------------------------
// The tick, phase by phase
// ---------------------------------------------------------------------------

/// The ball's bounding box touches or overlaps the paddle's (boundaries
/// inclusive, as in [`crate::geometry::overlaps`]).
pub open spec fn ball_hits_paddle(b: BallModel, p: PaddleModel) -> bool {
    &&& b.pos_x <= p.pos_x + p.w
    &&& p.pos_x <= b.pos_x + b.w
    &&& b.pos_y <= p.pos_y + p.h
    &&& p.pos_y <= b.pos_y + b.h
}

/// A paddle hit reflects the ball horizontally, adds the fixed increment
/// to its speed, and clears the opponent's shot boost.
pub open spec fn paddle_hit_phase(m: StateModel) -> StateModel {
    let after_left = if ball_hits_paddle(m.ball, m.player1) {
        StateModel {
            ball: BallModel {
                vel_x: -m.ball.vel_x,
                speed: m.ball.speed + SPEED_INCREMENT,
                ..m.ball
            },
            player2: PaddleModel { great_shot: SHOT_NORMAL as int, ..m.player2 },
            ..m
        }
    } else {
        m
    };
    if ball_hits_paddle(after_left.ball, after_left.player2) {
        StateModel {
            ball: BallModel {
                vel_x: -after_left.ball.vel_x,
                speed: after_left.ball.speed + SPEED_INCREMENT,
                ..after_left.ball
            },
            player1: PaddleModel { great_shot: SHOT_NORMAL as int, ..after_left.player1 },
            ..after_left
        }
    } else {
        after_left
    }
}

/// One axis of ball motion: the velocity component times the speed and
/// both shot multipliers, four tenths multiplied into subunits.
pub open spec fn displacement(vel: int, speed: int, shot1: int, shot2: int) -> int {
    vel * speed * shot1 * shot2
}

/// The ball advances by its velocity scaled by its speed and by both
/// paddles' shot multipliers.
pub open spec fn move_phase(m: StateModel) -> StateModel {
    StateModel {
        ball: BallModel {
            pos_x: m.ball.pos_x + displacement(
                m.ball.vel_x,
                m.ball.speed,
                m.player1.great_shot,
                m.player2.great_shot,
            ),
            pos_y: m.ball.pos_y + displacement(
                m.ball.vel_y,
                m.ball.speed,
                m.player1.great_shot,
                m.player2.great_shot,
            ),
            ..m.ball
        },
        ..m
    }
}

/// On or past the top or bottom field edge the vertical velocity is
/// reflected.
pub open spec fn bounce_phase(m: StateModel) -> StateModel {
    if m.ball.pos_y <= 0 || m.ball.pos_y >= FIELD_HEIGHT - m.ball.h {
        StateModel { ball: BallModel { vel_y: -m.ball.vel_y, ..m.ball }, ..m }
    } else {
        m
    }
}

/// The ball with its size kept and everything else as served: centered,
/// velocity (1.5, 2.5) and speed 1.0.
pub open spec fn served_ball(b: BallModel) -> BallModel {
    BallModel {
        pos_x: FIELD_CENTER_X as int,
        pos_y: FIELD_CENTER_Y as int,
        vel_x: START_VEL_X as int,
        vel_y: START_VEL_Y as int,
        speed: START_SPEED as int,
        ..b
    }
}

/// Which goal the moved ball scored: out past the right margin and the
/// left player scores; out past the left margin and the right player
/// scores.
pub open spec fn goal_of(m: StateModel) -> GoalEvent {
    if m.ball.pos_x >= FIELD_WIDTH + GOAL_MARGIN {
        GoalEvent::LeftScores
    } else if m.ball.pos_x <= -GOAL_MARGIN {
        GoalEvent::RightScores
    } else {
        GoalEvent::NoGoal
    }
}

/// A goal increments the scorer's count, clears both shot boosts and
/// serves the ball anew.
pub open spec fn goal_phase(m: StateModel) -> StateModel {
    match goal_of(m) {
        GoalEvent::LeftScores => StateModel {
            player1: PaddleModel {
                score: m.player1.score + 1,
                great_shot: SHOT_NORMAL as int,
                ..m.player1
            },
            player2: PaddleModel { great_shot: SHOT_NORMAL as int, ..m.player2 },
            ball: served_ball(m.ball),
        },
        GoalEvent::RightScores => StateModel {
            player1: PaddleModel { great_shot: SHOT_NORMAL as int, ..m.player1 },
            player2: PaddleModel {
                score: m.player2.score + 1,
                great_shot: SHOT_NORMAL as int,
                ..m.player2
            },
            ball: served_ball(m.ball),
        },
        GoalEvent::NoGoal => m,
    }
}

pub open spec fn clamped(v: int, lo: int, hi: int) -> int {
    if v < lo {
        lo
    } else if v > hi {
        hi
    } else {
        v
    }
}

/// One paddle's movement: each held key moves it by the fixed step, and
/// the result is clamped to the field (its own height makes the lower
/// stop).
pub open spec fn moved_paddle(p: PaddleModel, up: bool, down: bool) -> PaddleModel {
    let after_up = if up {
        PaddleModel { pos_y: clamped(p.pos_y - PADDLE_STEP, 0, FIELD_HEIGHT - p.h), ..p }
    } else {
        p
    };
    if down {
        PaddleModel {
            pos_y: clamped(after_up.pos_y + PADDLE_STEP, 0, FIELD_HEIGHT - after_up.h),
            ..after_up
        }
    } else {
        after_up
    }
}

pub open spec fn paddle_move_phase(m: StateModel, inp: InputState) -> StateModel {
    StateModel {
        player1: moved_paddle(m.player1, inp.player1_up, inp.player1_down),
        player2: moved_paddle(m.player2, inp.player2_up, inp.player2_down),
        ..m
    }
}

/// On a discrete deflect key press with the ball within range of the
/// right paddle along x, the right paddle's shot multiplier is boosted.
pub open spec fn deflect_phase(m: StateModel, inp: InputState) -> StateModel {
    if inp.deflect_pressed && m.ball.pos_x > m.player2.pos_x - DEFLECT_RANGE {
        StateModel { player2: PaddleModel { great_shot: SHOT_BOOST as int, ..m.player2 }, ..m }
    } else {
        m
    }
}

/// One full simulation tick: paddle hits, ball motion, wall bounce,
/// goals, keyboard-driven paddle movement, and the deflect gesture, in
/// that order.
pub open spec fn tick(m: StateModel, inp: InputState) -> StateModel {
    deflect_phase(
        paddle_move_phase(goal_phase(bounce_phase(move_phase(paddle_hit_phase(m)))), inp),
        inp,
    )
}

/// The goal event a tick reports: where the ball stands once hits and
/// motion are applied decides it; the keys play no part.
pub open spec fn tick_goal(m: StateModel) -> GoalEvent {
    goal_of(move_phase(paddle_hit_phase(m)))
}

// ---------------------------------------------------------------------------
// The executable tick
// ---------------------------------------------------------------------------

/// Interval bounds for the four-factor displacement product, so that the
/// executable multiplication provably stays within `i64`.
proof fn lemma_displacement_bounds(vel: int, speed: int, shot1: int, shot2: int)
    by (nonlinear_arith)
    requires
        -VEL_LIMIT <= vel <= VEL_LIMIT,
        0 <= speed <= SPEED_LIMIT + 2,
        0 < shot1 <= SHOT_BOOST,
        0 < shot2 <= SHOT_BOOST,
    ensures
        -100_000_000_000_000 <= vel * speed <= 100_000_000_000_000,
        -3_000_000_000_000_000 <= vel * speed * shot1 <= 3_000_000_000_000_000,
        -90_000_000_000_000_000 <= vel * speed * shot1 * shot2 <= 90_000_000_000_000_000,
{
}

fn clamp_i64(v: i64, lo: i64, hi: i64) -> (r: i64)
    requires
        lo <= hi,
    ensures
        r == clamped(v as int, lo as int, hi as int),
{
    if v < lo {
        lo
    } else if v > hi {
        hi
    } else {
        v
    }
}

/// The state the game starts in, for the given asset sizes: each paddle
/// inset from its edge and centered vertically, scores zero, multipliers
/// at rest, and the ball served from the center.
pub open spec fn initial_state(
    ball_w: int,
    ball_h: int,
    p1_w: int,
    p1_h: int,
    p2_w: int,
    p2_h: int,
) -> StateModel {
    StateModel {
        player1: PaddleModel {
            pos_x: PADDLE_OFFSET_X as int,
            pos_y: (FIELD_HEIGHT - p1_h) / 2,
            great_shot: SHOT_NORMAL as int,
            score: 0,
            w: p1_w,
            h: p1_h,
        },
        player2: PaddleModel {
            pos_x: FIELD_WIDTH - p2_w - PADDLE_OFFSET_X,
            pos_y: (FIELD_HEIGHT - p2_h) / 2,
            great_shot: SHOT_NORMAL as int,
            score: 0,
            w: p2_w,
            h: p2_h,
        },
        ball: BallModel {
            pos_x: FIELD_CENTER_X as int,
            pos_y: FIELD_CENTER_Y as int,
            vel_x: START_VEL_X as int,
            vel_y: START_VEL_Y as int,
            speed: START_SPEED as int,
            w: ball_w,
            h: ball_h,
        },
    }
}

impl GameState {
    /// Machine limits under which one tick provably stays within `i64`:
    /// a sound state whose ball speed, ball position and scores are still
    /// far from the representation's edge.
    pub open spec fn tick_fits(self) -> bool {
        &&& self@.wf()
        &&& self.ball.speed <= SPEED_LIMIT
        &&& -BALL_POS_LIMIT <= self.ball.pos_x <= BALL_POS_LIMIT
        &&& -BALL_POS_LIMIT <= self.ball.pos_y <= BALL_POS_LIMIT
        &&& self.player1.score < u8::MAX
        &&& self.player2.score < u8::MAX
    }

    /// Set up a new game from the sizes of the three visual assets, in
    /// subunits.
    pub fn new(ball_w: i64, ball_h: i64, p1_w: i64, p1_h: i64, p2_w: i64, p2_h: i64) -> (g:
        GameState)
        requires
            0 < ball_w <= FIELD_WIDTH,
            0 < ball_h <= FIELD_HEIGHT,
            0 < p1_w <= FIELD_WIDTH,
            0 < p1_h <= FIELD_HEIGHT,
            0 < p2_w <= FIELD_WIDTH,
            0 < p2_h <= FIELD_HEIGHT,
        ensures
            g@ == initial_state(
                ball_w as int,
                ball_h as int,
                p1_w as int,
                p1_h as int,
                p2_w as int,
                p2_h as int,
            ),
            g.tick_fits(),
    {
        let player1 = Paddle::new(
            p1_w,
            p1_h,
            PADDLE_OFFSET_X,
            (FIELD_HEIGHT - p1_h) / 2,
            SHOT_NORMAL,
            0,
        );
        let player2 = Paddle::new(
            p2_w,
            p2_h,
            FIELD_WIDTH - p2_w - PADDLE_OFFSET_X,
            (FIELD_HEIGHT - p2_h) / 2,
            SHOT_NORMAL,
            0,
        );
        let ball = Ball::new(
            ball_w,
            ball_h,
            FIELD_CENTER_X,
            FIELD_CENTER_Y,
            START_VEL_X,
            START_VEL_Y,
            START_SPEED,
        );
        GameState { player1, player2, ball }
    }

    /// One simulation tick, exactly [`tick`] of the model: paddle hits,
    /// ball motion, wall bounce, goals, paddle movement, deflect. Returns
    /// which goal, if any, the tick saw.
    #[verifier::rlimit(100)]
    pub fn update(&mut self, inp: InputState) -> (goal: GoalEvent)
        requires
            old(self).tick_fits(),
        ensures
            final(self)@ == tick(old(self)@, inp),
            goal == tick_goal(old(self)@),
            final(self)@.wf(),
    {
        let ghost m0 = self@;

        // Paddle hits: both checks read the bounds computed up front.
        let p1_bounds = self.player1.bounds();
        let p2_bounds = self.player2.bounds();
        let ball_bounds = self.ball.bounds();
        if ball_bounds.intersects(&p1_bounds) {
            self.ball.vel_x = -self.ball.vel_x;
            self.ball.speed = self.ball.speed + SPEED_INCREMENT;
            self.player2.great_shot = SHOT_NORMAL;
        }
        if ball_bounds.intersects(&p2_bounds) {
            self.ball.vel_x = -self.ball.vel_x;
            self.ball.speed = self.ball.speed + SPEED_INCREMENT;
            self.player1.great_shot = SHOT_NORMAL;
        }
        let ghost m1 = paddle_hit_phase(m0);
        assert(self@ == m1);

        // Ball motion.
        proof {
            lemma_displacement_bounds(
                self.ball.vel_x as int,
                self.ball.speed as int,
                self.player1.great_shot as int,
                self.player2.great_shot as int,
            );
            lemma_displacement_bounds(
                self.ball.vel_y as int,
                self.ball.speed as int,
                self.player1.great_shot as int,
                self.player2.great_shot as int,
            );
        }
        let dx: i64 = self.ball.vel_x * self.ball.speed * self.player1.great_shot
            * self.player2.great_shot;
        let dy: i64 = self.ball.vel_y * self.ball.speed * self.player1.great_shot
            * self.player2.great_shot;
        self.ball.pos_x = self.ball.pos_x + dx;
        self.ball.pos_y = self.ball.pos_y + dy;
        let ghost m2 = move_phase(m1);
        assert(self@ == m2);

        // Wall bounce.
        if self.ball.pos_y <= 0 || self.ball.pos_y >= FIELD_HEIGHT - self.ball.h {
            self.ball.vel_y = -self.ball.vel_y;
        }
        let ghost m3 = bounce_phase(m2);
        assert(self@ == m3);

        // Goals. A goal on the right serves the ball from the center,
        // which is never past the left margin, so at most one side scores.
        let mut goal = GoalEvent::NoGoal;
        if self.ball.pos_x >= FIELD_WIDTH + GOAL_MARGIN {
            self.player1.score = self.player1.score + 1;
            self.player1.great_shot = SHOT_NORMAL;
            self.player2.great_shot = SHOT_NORMAL;
            self.ball.reinitialize_ball();
            goal = GoalEvent::LeftScores;
        }
        if self.ball.pos_x <= -GOAL_MARGIN {
            self.player2.score = self.player2.score + 1;
            self.player1.great_shot = SHOT_NORMAL;
            self.player2.great_shot = SHOT_NORMAL;
            self.ball.reinitialize_ball();
            goal = GoalEvent::RightScores;
        }
        let ghost m4 = goal_phase(m3);
        assert(self@ == m4);

        // Keyboard-driven paddle movement, clamped to the field.
        if inp.player1_up {
            let next: i64 = self.player1.pos_y - PADDLE_STEP;
            self.player1.pos_y = clamp_i64(next, 0, FIELD_HEIGHT - self.player1.h);
        }
        if inp.player1_down {
            let next: i64 = self.player1.pos_y + PADDLE_STEP;
            self.player1.pos_y = clamp_i64(next, 0, FIELD_HEIGHT - self.player1.h);
        }
        if inp.player2_up {
            let next: i64 = self.player2.pos_y - PADDLE_STEP;
            self.player2.pos_y = clamp_i64(next, 0, FIELD_HEIGHT - self.player2.h);
        }
        if inp.player2_down {
            let next: i64 = self.player2.pos_y + PADDLE_STEP;
            self.player2.pos_y = clamp_i64(next, 0, FIELD_HEIGHT - self.player2.h);
        }
        let ghost m5 = paddle_move_phase(m4, inp);
        assert(self@ == m5);

        // The deflect gesture arms the right paddle's boost.
        if inp.deflect_pressed && self.ball.pos_x > self.player2.pos_x - DEFLECT_RANGE {
            self.player2.great_shot = SHOT_BOOST;
        }
        assert(self@ == deflect_phase(m5, inp));

        goal
    }
}

} // verus!
