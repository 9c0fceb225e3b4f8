//! A typed layer over an immediate-mode graphics context, and a render loop
//! that redraws one triangle whenever the viewport changes.

pub mod render;
pub mod render_loop;
