//! The rules of a two-player game of Pong, in fixed-point arithmetic.
//!
//! Lengths are whole thousandths of a pixel, time is whole milliseconds, and
//! the ball's velocity is in pixels per second, which is the same as
//! thousandths of a pixel per millisecond. In these units every step of the
//! game is integer arithmetic, and each function says exactly what it
//! computes. A result that would leave the range of `i64` sticks to the
//! nearest end of that range.
//!
//! The library keeps no window and reads no keys. Whoever runs the game hands
//! [`game::Game::step`] the size of the field and the keys of each frame, and
//! draws what [`scene`] lays out.

pub mod ball;
pub mod court;
pub mod game;
pub mod laws;
pub mod paddle;
pub mod scene;
pub mod serve;
pub mod units;
