//! Verified heads-up layer of a turn-based grid game: health and log
//! presenters, a click-to-grid mapper with a nearest-entity resolver, the
//! tooltip controller, the equipment-selection state machine and the
//! phase-driven lifecycle of the UI node tree.
pub mod position;
pub mod text;
pub mod health;
pub mod phase;
pub mod grid;
pub mod resolver;
pub mod hud;
pub mod equipment;
pub mod ui_tree;
pub mod lifecycle;
pub mod driver;
pub mod schedule;
