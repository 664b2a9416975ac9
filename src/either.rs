//! A value that is either an integer on the left or a text on the right.
use vstd::prelude::*;
use crate::text::{int_text, int_to_text};

verus! {

#[derive(Clone, Copy, Debug, PartialEq, Eq, Structural)]
pub enum EitherType {
    Left,
    Right,
}

/// Either an integer (left) or a text (right); the payload of its own side is
/// present when it is well formed.
pub struct Either {
    pub either_type: EitherType,
    pub left_value: Option<i32>,
    pub right_value: Option<String>,
}

impl Either {
    /// Exactly the payload of the value's own side is present.
    pub open spec fn wf(&self) -> bool {
        &&& self.left_value is Some <==> self.either_type == EitherType::Left
        &&& self.right_value is Some <==> self.either_type == EitherType::Right
    }
}

/// How a value is written: `Left(n)` or `Right("text")`, or a fixed notice
/// when the payload of its side is missing.
pub open spec fn either_text(e: Either) -> Seq<char> {
    match e.either_type {
        EitherType::Left => match e.left_value {
            Some(v) => "Left("@ + int_text(v as int) + ")"@,
            None => "Invalid Left value"@,
        },
        EitherType::Right => match e.right_value {
            Some(t) => "Right(\""@ + t@ + "\")"@,
            None => "Invalid Right value"@,
        },
    }
}

impl Either {
    pub fn left(value: i32) -> (e: Either)
        ensures
            e.wf(),
            e.either_type == EitherType::Left,
            e.left_value == Some(value),
    {
        Either { either_type: EitherType::Left, left_value: Some(value), right_value: None }
    }

    pub fn right(value: &str) -> (e: Either)
        ensures
            e.wf(),
            e.either_type == EitherType::Right,
            e.right_value is Some && e.right_value->0@ == value@,
    {
        Either {
            either_type: EitherType::Right,
            left_value: None,
            right_value: Some(value.to_string()),
        }
    }

    pub fn format(&self) -> (out: String)
        ensures
            out@ == either_text(*self),
    {
        match self.either_type {
            EitherType::Left => match self.left_value {
                Some(v) => {
                    let mut s = "Left(".to_string();
                    s.append(int_to_text(v).as_str());
                    s.append(")");
                    s
                },
                None => "Invalid Left value".to_string(),
            },
            EitherType::Right => match &self.right_value {
                Some(t) => {
                    let mut s = "Right(\"".to_string();
                    s.append(t.as_str());
                    s.append("\")");
                    s
                },
                None => "Invalid Right value".to_string(),
            },
        }
    }
}

} // verus!
