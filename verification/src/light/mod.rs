pub mod cmap;
pub mod color;
pub mod coord;
pub mod layer;
pub mod mask;
pub mod pattern_generator;
pub mod state;
