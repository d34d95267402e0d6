//! Data model and verified core of a small 2D text-rendering toolkit:
//! vectors and square matrices over any copyable scalar, oriented
//! rectangles with a separating-axis overlap test, glyph-run metrics, and
//! the decisions of the render loop.

pub mod error;
pub mod physics;
pub mod text;
pub mod utils;
pub mod window;

pub use window::{Disposable, WindowDetails};
