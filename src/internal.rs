use vstd::prelude::*;

verus! {

/// Answers the fixed value 42.
pub fn helper_function() -> (r: u32)
    ensures
        r == 42,
{
    42
}

/// A piece of text kept for internal use.
pub struct InternalData {
    value: String,
}

} // verus!
