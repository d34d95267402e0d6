//! Vectors, matrices and collision shapes.

pub mod matrix;
pub mod rectangle;
pub mod vector;

pub use matrix::{Matrix, Matrix2, Matrix3, Matrix4};
pub use rectangle::Rectangle;
pub use vector::{Color, Vector2, Vector3};
