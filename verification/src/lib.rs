//! Core simulation for a terminal side-scrolling jump game.
//!
//! A controllable actor jumps over procedurally spawned obstacles that
//! scroll toward it at increasing speed; the run ends on first contact.
//! The library holds the deterministic game core: fixed-tick physics
//! integration, procedural spawning, axis-aligned collision detection,
//! and the running / game-over / reset lifecycle. All world coordinates
//! are fixed-point integers in hundredths of a world unit, so every
//! quantity the rules speak of is exact. Terminal rendering and input
//! polling live in the external driver, which only reads session state
//! and forwards commands.

pub mod actor;
pub mod config;
pub mod laws;
pub mod obstacle;
pub mod rng;
pub mod session;

pub use session::Command;
pub use session::GameSession;
