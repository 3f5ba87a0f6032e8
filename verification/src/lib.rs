//! Geometry, vertex layout, frame and event logic of a two-shape colour scene
//! drawn through a GPU pipeline.
pub mod geometry;
pub mod layout;
pub mod pipeline;
pub mod state;
pub mod handler;
