use vstd::prelude::*;

verus! {

use crate::geometry::Rect;
use crate::sim::{FIELD_CENTER_X, FIELD_CENTER_Y, START_VEL_X, START_VEL_Y, START_SPEED};

/// Mathematical value of a [`Ball`]: the same fields over unbounded integers.
pub struct BallModel {
    pub pos_x: int,
    pub pos_y: int,
    pub vel_x: int,
    pub vel_y: int,
    pub speed: int,
    pub w: int,
    pub h: int,
}

/// Mathematical value of a [`Paddle`].
pub struct PaddleModel {
    pub pos_x: int,
    pub pos_y: int,
    pub great_shot: int,
    pub score: int,
    pub w: int,
    pub h: int,
}

/// The ball: a position, a velocity direction, a scalar speed multiplier,
/// and the size of its visual asset. Positions and sizes are in subunits;
/// velocity components and the speed are in tenths.
#[derive(Clone, Copy, PartialEq, Eq, Structural, Debug)]
pub struct Ball {
    pub pos_x: i64,
    pub pos_y: i64,
    pub vel_x: i64,
    pub vel_y: i64,
    pub speed: i64,
    pub w: i64,
    pub h: i64,
}

/// A paddle: a position, the transient "great shot" multiplier (tenths:
/// normal or boosted), the player's score, and the size of its visual
/// asset in subunits.
#[derive(Clone, Copy, PartialEq, Eq, Structural, Debug)]
pub struct Paddle {
    pub pos_x: i64,
    pub pos_y: i64,
    pub great_shot: i64,
    pub score: u8,
    pub w: i64,
    pub h: i64,
}

impl View for Ball {
    type V = BallModel;

    open spec fn view(&self) -> BallModel {
        BallModel {
            pos_x: self.pos_x as int,
            pos_y: self.pos_y as int,
            vel_x: self.vel_x as int,
            vel_y: self.vel_y as int,
            speed: self.speed as int,
            w: self.w as int,
            h: self.h as int,
        }
    }
}

impl View for Paddle {
    type V = PaddleModel;

    open spec fn view(&self) -> PaddleModel {
        PaddleModel {
            pos_x: self.pos_x as int,
            pos_y: self.pos_y as int,
            great_shot: self.great_shot as int,
            score: self.score as int,
            w: self.w as int,
            h: self.h as int,
        }
    }
}

impl Ball {
    pub fn new(w: i64, h: i64, pos_x: i64, pos_y: i64, vel_x: i64, vel_y: i64, speed: i64) -> (b:
        Ball)
        ensures
            b == (Ball { pos_x, pos_y, vel_x, vel_y, speed, w, h }),
    {
        Ball { pos_x, pos_y, vel_x, vel_y, speed, w, h }
    }

    pub fn width(&self) -> (r: i64)
        ensures
            r == self.w,
    {
        self.w
    }

    pub fn height(&self) -> (r: i64)
        ensures
            r == self.h,
    {
        self.h
    }

    /// The ball's axis-aligned bounding box.
    pub fn bounds(&self) -> (r: Rect)
        ensures
            r == (Rect { x: self.pos_x, y: self.pos_y, w: self.w, h: self.h }),
    {
        Rect::new(self.pos_x, self.pos_y, self.w, self.h)
    }

    /// Put the ball back at the field center with the fixed serve velocity
    /// and unit speed, as after a goal. The size is kept.
    pub fn reinitialize_ball(&mut self)
        ensures
            *final(self) == (Ball {
                pos_x: FIELD_CENTER_X,
                pos_y: FIELD_CENTER_Y,
                vel_x: START_VEL_X,
                vel_y: START_VEL_Y,
                speed: START_SPEED,
                w: old(self).w,
                h: old(self).h,
            }),
    {
        self.pos_x = FIELD_CENTER_X;
        self.pos_y = FIELD_CENTER_Y;
        self.vel_x = START_VEL_X;
        self.vel_y = START_VEL_Y;
        self.speed = START_SPEED;
    }
}

impl Paddle {
    pub fn new(w: i64, h: i64, pos_x: i64, pos_y: i64, great_shot: i64, score: u8) -> (p: Paddle)
        ensures
            p == (Paddle { pos_x, pos_y, great_shot, score, w, h }),
    {
        Paddle { pos_x, pos_y, great_shot, score, w, h }
    }

    pub fn width(&self) -> (r: i64)
        ensures
            r == self.w,
    {
        self.w
    }

    pub fn height(&self) -> (r: i64)
        ensures
            r == self.h,
    {
        self.h
    }

    /// The paddle's axis-aligned bounding box.
    pub fn bounds(&self) -> (r: Rect)
        ensures
            r == (Rect { x: self.pos_x, y: self.pos_y, w: self.w, h: self.h }),
    {
        Rect::new(self.pos_x, self.pos_y, self.w, self.h)
    }
}

} // verus!
