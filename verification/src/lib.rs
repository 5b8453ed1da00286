//! Verified core of a minimal two-player pong game.
//!
//! The library holds the whole simulation: entities (two paddles and a
//! ball), axis-aligned collision detection, and the per-tick update rule
//! (paddle hits, ball motion, wall bounces, goals and scoring, paddle
//! movement, and the timed "great shot" deflect boost).
//!
//! All quantities are fixed-point integers: positions and sizes are in
//! subunits (10,000 subunits per world unit), while velocity components,
//! the ball's speed and the paddles' shot multipliers are in tenths of a
//! unit. The product of a velocity component with the speed and the two
//! shot multipliers is then exactly the displacement in subunits.
//!
//! Rendering, asset loading and input polling belong to the host program,
//! which feeds plain key states in and reads entity positions back out.

pub mod geometry;
pub mod entities;
pub mod sim;
pub mod laws;
