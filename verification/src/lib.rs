//! A terminal two-panel list manager (TODO / DONE): an immediate-mode layout
//! engine and the modal interaction state machine that drives it, together
//! with the flat-file persistence format for the two lists.

pub mod app;
pub mod edit;
pub mod keys;
pub mod layout;
pub mod lists;
pub mod persist;
pub mod render;
pub mod status;
pub mod ui;
pub mod vec2;
