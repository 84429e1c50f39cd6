use vstd::prelude::*;

pub mod voice;



verus! {

/// Returns `slice[index]`, or `default` when the index is out of range.
pub fn get_default<T: Copy>(slice: &[T], index: usize, default: T) -> (r: T)
    ensures
        r == if index < slice@.len() {
            slice@[index as int]
        } else {
            default
        },
{
    if index < slice.len() {
        slice[index]
    } else {
        default
    }
}

} // verus!
