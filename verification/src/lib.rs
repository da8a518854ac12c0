//! Runtime core of a minimalist desktop window compositor.
//!
//! The crate models the pieces that are mutated and read together on every
//! event-loop tick: the spatial model (window placement and stacking), the
//! focus-resolution and input-routing state machine, the interactive
//! window-move grab, and the damage-tracked render pipeline.  Every operation
//! carries a contract; the display-protocol marshaling, device setup and GPU
//! work live outside the crate and exchange plain values with it.

pub mod config;
pub mod focus;
pub mod geometry;
pub mod grabs;
pub mod handlers;
pub mod input;
pub mod keybind;
pub mod monitor;
pub mod render;
pub mod space;
pub mod ssd;
pub mod state;
