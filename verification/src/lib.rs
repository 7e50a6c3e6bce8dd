//! Rules engine for a turn-based tactical grid game.
//!
//! The engine owns a roster of positioned, affiliated combat units, enforces
//! per-round action budgets (move / attack / spawn), validates the spatial
//! legality of actions against a pointed-at cell, resolves combat and unit
//! death, and advances a cyclic turn order across three factions.

pub mod gamecell;
pub mod geom;
pub mod laws;
pub mod model;
pub mod state;
pub mod types;
pub mod unit;

pub use crate::gamecell::GameCell;
pub use crate::geom::in_range;
pub use crate::geom::lemma_square_boundary_inclusive;
pub use crate::state::State;
pub use crate::types::CurrentState;
pub use crate::types::Key;
pub use crate::types::Mode;
pub use crate::types::Race;
pub use crate::types::Rgb;
pub use crate::unit::Unit;
pub use crate::unit::interceptor_entity;
