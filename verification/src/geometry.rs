//! Integer geometry value types shared by the rest of the API.

pub mod point;
pub mod rect;
pub mod size;
pub mod vector;

pub use point::Point;
pub use rect::Rect;
pub use size::Size;
pub use vector::Vector;
