//! Deterministic core of a 2D platformer in which a polymorphic player
//! moves, jumps, spins, and carries status effects on its four edges.
//!
//! All physical quantities are held in fixed-point milli-units (one
//! thousandth of a world unit); times are held in milliseconds and
//! angles in milli-quarter-turns. The surrounding application converts
//! between the physics engine's floating-point world and these exact
//! integer values at the boundary, performs the engine's shape casts
//! along the directions the core asks for, and hands the results back
//! as plain values.

pub mod bonus;
pub mod collision_groups;
pub mod fixed;
pub mod locomotion;
pub mod monster;
pub mod player;
pub mod player_state;
pub mod shape;
pub mod side_effect;
pub mod states;
pub mod sync;

pub use bonus::Bonus;
pub use player::Player;
pub use player_state::PlayerState;
pub use shape::PlayerShape;
pub use side_effect::SideEffect;
pub use states::GameWorldState;
