//! A point of the integer plane.
use vstd::prelude::*;
use crate::text::{int_text, int_to_text};

verus! {

#[derive(Clone, Copy, Debug)]
pub struct Point {
    pub x: i32,
    pub y: i32,
}

/// A point written as `(x, y)`.
pub open spec fn point_text(p: Point) -> Seq<char> {
    "("@ + int_text(p.x as int) + ", "@ + int_text(p.y as int) + ")"@
}

impl Point {
    pub fn new(x: i32, y: i32) -> (p: Point)
        ensures
            p.x == x,
            p.y == y,
    {
        Point { x, y }
    }

    pub fn format(&self) -> (out: String)
        ensures
            out@ == point_text(*self),
    {
        let mut s = "(".to_string();
        s.append(int_to_text(self.x).as_str());
        s.append(", ");
        s.append(int_to_text(self.y).as_str());
        s.append(")");
        s
    }
}

} // verus!
