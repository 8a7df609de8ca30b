//! NPC behaviour and pathfinding for a 2D top-down survival game.
//!
//! The library covers the decision logic of the game's simulation tick:
//! the world/grid coordinate transform, the walkability and occupancy grid,
//! the goal-policy driven A* pathfinder, the civilian and hunter state
//! machines, the projectile intercept solver and the spawner gates.
//! Rendering, physics integration and asset loading live outside of it.

pub mod components;
pub mod debug;
pub mod grid;
pub mod intercept;
pub mod occupancy;
pub mod pathfinder;
pub mod systems;
