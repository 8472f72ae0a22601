//! Core of a filterable application/window launcher.
//!
//! The library holds the interaction state machine of the launcher: a
//! [`model::State`] carrying the loaded items, the filter text, the selected
//! row and the focus flag, together with the pure filter and navigation
//! algorithms.  Every user or system event is translated by the caller into a
//! [`model::Intent`]; [`model::State::update`] applies it and hands back at
//! most one [`model::Effect`] for the surrounding shell to execute.  The
//! library never draws, spawns or terminates anything itself.
//!
//! [`filter`] holds the case-insensitive substring filter and the filtered
//! view it induces; [`laws`] states and proves the model's properties once
//! for all states.

pub mod filter;
pub mod item;
pub mod laws;
pub mod model;
