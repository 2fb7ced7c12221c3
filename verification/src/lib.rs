//! Logical state of a 3x3x3 twisty puzzle: six faces of eight stickers each,
//! and the quarter-turn permutation algorithm that rewires the edge rows of
//! the four faces around a turned face.

pub mod color;
pub mod cube;
pub mod side;
pub mod util;

pub use color::Color;
pub use cube::Cube;
pub use side::Side;
pub use util::RotationAnimation;
pub use util::RotationAxis;
pub use util::RotationDirection;
