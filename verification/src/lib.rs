//! A grid ray caster on fixed-point numbers.

pub mod camera;
pub mod data;
pub mod fixed;
pub mod input;
pub mod map;
pub mod movement;
pub mod projection;
pub mod raycast;
pub mod rendering;
