//! Simulation core of a 2D arcade space shooter: a ship, asteroids and
//! projectiles move under fixed-timestep kinematics, wrap around a toroidal
//! playfield, collide by axis-aligned box overlap, and spawn or despawn
//! through a command buffer committed at the end of each tick.

pub mod asteroid;
pub mod collision;
pub mod math;
pub mod player;
pub mod projectile;
pub mod rng;
pub mod ship;
pub mod sim;
pub mod world;
