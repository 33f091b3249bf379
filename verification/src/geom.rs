//! Fixed-point plane geometry: points, vectors and angles.

pub mod angle;
pub mod point;
pub mod rectangle;
pub mod trig;
pub mod vector;

pub use self::angle::Angle;
pub use self::point::Point;
pub use self::rectangle::Rectangle;
pub use self::vector::Vector;
