//! Cursor-anchored overlay positioning on an integer grid.
//!
//! A widget shows its content next to the mouse cursor: it stores where the
//! cursor was last seen, asks for a new frame when that changes, and anchors
//! the content at cursor + offset + translation in an overlay above the normal
//! layout. Coordinates are whole numbers of a unit that the embedding picks.

pub mod geometry;
pub mod host;
pub mod layer;
pub mod overlay;
pub mod state;

pub use crate::layer::{mouse_layer, MouseLayer};
pub use crate::overlay::Overlay;
pub use crate::state::State;
