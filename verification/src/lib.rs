//! A retained-mode widget toolkit: a tree of composable widgets (buttons,
//! text labels, panels, nesting containers) is laid out by flex, grid or
//! absolute strategies, driven once per frame by an input snapshot, and
//! painted by emitting draw commands for a pluggable rendering backend.

pub mod container;
pub mod draw;
pub mod events;
pub mod geometry;
pub mod input;
pub mod game;
pub mod generate;
pub mod layout;
pub mod llm;
pub mod manager;
pub mod puzzle;
pub mod text;
pub mod widgets;
