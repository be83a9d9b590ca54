//! Gameplay core of a falling arcade game: collision classification,
//! hazard pickups, the actor's health and velocity model, the cycle engine
//! that drives stage changes, and the scene state machine.
//!
//! Lengths, positions and speeds are fixed-point integers in thousandths of
//! a world unit (see `actor::UNIT`), so every rule is exact.

pub mod actor;
pub mod clock;
pub mod control;
pub mod cycle;
pub mod hazards;
pub mod layers;
pub mod presentation;
mod random;
pub mod session;
pub mod spawning;
pub mod states;

pub use actor::{Actor, ActorBody};
pub use cycle::FallingState;
pub use hazards::{CubeField, CubeType};
pub use layers::{CollisionEvent, CollisionLayers, EntityId, Layer};
pub use session::FallingSession;
pub use states::{AppState, SceneController, Transition};
