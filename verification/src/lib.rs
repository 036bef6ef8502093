pub mod geometry;
pub mod laws;
pub mod math;
pub mod root;
pub mod scalar;
