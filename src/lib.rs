//! Simulation core of a side-scrolling platformer: axis-aligned geometry, the
//! player's state machine, level collision and a fixed-timestep driver.

pub mod geometry;
pub mod red_hat_boy;
pub mod sheet;
pub mod game;
pub mod input;
pub mod game_loop;
