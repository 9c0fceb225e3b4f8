//! The typed layer over the graphics context.

pub mod api;
pub mod builder;
pub mod constants;
pub mod data;
pub mod render;
pub mod render_loop;
