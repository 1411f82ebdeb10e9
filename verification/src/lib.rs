//! Gameplay rules of a side-view soap-foam defence game: foam slot bookkeeping,
//! enemies, round state, input tables, quality profiles, HUD texts and the UI
//! screen stack.

pub mod actions;
pub mod bubble;
pub mod consts;
pub mod enemy;
pub mod gutz_ui;
pub mod layers;
pub mod quality;
pub mod soap;
pub mod state;
pub mod ui;
