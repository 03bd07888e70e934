//! Scroll state of a text-editing view.

pub mod anchor;
pub mod editor;
pub mod effects;
pub mod geometry;
pub mod manager;
pub mod ongoing;
pub mod scrollbar;
