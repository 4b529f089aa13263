//! The simulation and resolution layer of a small pursuit game.
//!
//! A controllable actor travels to a named building while a pursuer follows.
//! When the actor reaches the entrance of its destination, a sight check
//! decides the session: seen means lost, unseen means won. Bystanders wander
//! to destinations of their own and leave the map on arrival.
//!
//! The engine that draws, moves bodies and answers overlap and ray queries is
//! not part of this crate. It hands in plain values (indices, flags, the
//! outcome of a ray cast) and applies what the functions here decide.
pub mod components;
pub mod generation;
pub mod geometry;
mod random;
pub mod session;
pub mod state;
pub mod systems;
