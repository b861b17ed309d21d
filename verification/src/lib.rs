pub mod base_renderer;
pub mod circle;
pub mod device;
pub mod entity;
pub mod geometry;
pub mod matrix;
pub mod scalar;
pub mod vector;
