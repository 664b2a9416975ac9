//! Small algebraic data type examples (traffic lights, messages, either
//! values, points, colors, directions) and a dispatcher that answers a fixed
//! catalog of source snippets with what running them would print.
pub mod catalog;
pub mod color;
pub mod direction;
pub mod either;
pub mod light;
pub mod list;
pub mod message;
pub mod point;
pub mod text;
pub mod trim;
