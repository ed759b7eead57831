pub mod ball;
pub mod vector2d;
pub mod velocity;
