//! The numeric core of a ray tracer: small fixed-size matrices with
//! cofactor-based determinant and inverse, three-component points, vectors
//! and colors, and a pixel canvas. Every type is generic over its scalar.

pub mod scalar;
pub mod matrix;
pub mod determinant;
pub mod laws;
pub mod color;
pub mod vector;
pub mod point;
pub mod canvas;

pub use scalar::Scalar;
pub use matrix::{Matrix, Matrix1, Matrix2, Matrix3, Matrix4};
pub use color::Color;
pub use vector::Vector;
pub use point::Point;
pub use canvas::{Canvas, CanvasError};
