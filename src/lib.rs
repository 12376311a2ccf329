//! The integer-level core of a Monte Carlo path tracer: image dimensions,
//! the pixel loop that fills a top-row-first buffer, the choice of the
//! nearest hit among a scene's primitives, and the bounce loop of a path
//! with its depth cap.
pub mod aspect;
pub mod grid;
pub mod hits;
pub mod trace;

pub use aspect::AspectRatio;
pub use grid::{flip_rows, render_rows};
pub use hits::nearest_hit;
pub use trace::{next_step, trace_path, Ending, Hop, Step, Surface};
