//! Reporting the first element of a list.
use vstd::prelude::*;
use crate::text::{int_text, int_to_text};

verus! {

/// The first element announced, or a fixed notice for an empty list.
pub open spec fn first_element_text(list: Seq<i32>) -> Seq<char> {
    if list.len() > 0 {
        "最初の要素: "@ + int_text(list[0] as int)
    } else {
        "リストは空です"@
    }
}

pub fn first_element(list: Vec<i32>) -> (out: String)
    ensures
        out@ == first_element_text(list@),
{
    if list.len() > 0 {
        let mut s = "最初の要素: ".to_string();
        s.append(int_to_text(list[0]).as_str());
        s
    } else {
        "リストは空です".to_string()
    }
}

} // verus!
