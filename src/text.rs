use vstd::prelude::*;

verus! {

/// The longer of two strings by byte length; the second one on a tie.
pub fn longest<'a>(x: &'a str, y: &'a str) -> (r: &'a str)
    ensures
        r == (if x.len() > y.len() { x } else { y }),
{
    if x.len() > y.len() {
        x
    } else {
        y
    }
}

} // verus!
