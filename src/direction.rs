//! The four compass directions.
use vstd::prelude::*;

verus! {

#[derive(Clone, Copy, Debug, PartialEq, Eq, Structural)]
pub enum DirectionType {
    North,
    South,
    East,
    West,
}

#[derive(Clone, Copy, Debug)]
pub struct Direction {
    pub dir_type: DirectionType,
}

/// What heading in a direction reads as.
pub open spec fn direction_text(d: DirectionType) -> Seq<char> {
    match d {
        DirectionType::North => "北に進む"@,
        DirectionType::South => "南に進む"@,
        DirectionType::East => "東に進む"@,
        DirectionType::West => "西に進む"@,
    }
}

impl Direction {
    pub fn north() -> (d: Direction)
        ensures
            d.dir_type == DirectionType::North,
    {
        Direction { dir_type: DirectionType::North }
    }

    pub fn south() -> (d: Direction)
        ensures
            d.dir_type == DirectionType::South,
    {
        Direction { dir_type: DirectionType::South }
    }

    pub fn east() -> (d: Direction)
        ensures
            d.dir_type == DirectionType::East,
    {
        Direction { dir_type: DirectionType::East }
    }

    pub fn west() -> (d: Direction)
        ensures
            d.dir_type == DirectionType::West,
    {
        Direction { dir_type: DirectionType::West }
    }

    pub fn describe(&self) -> (out: String)
        ensures
            out@ == direction_text(self.dir_type),
    {
        match self.dir_type {
            DirectionType::North => "北に進む".to_string(),
            DirectionType::South => "南に進む".to_string(),
            DirectionType::East => "東に進む".to_string(),
            DirectionType::West => "西に進む".to_string(),
        }
    }
}

} // verus!
