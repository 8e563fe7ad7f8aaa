pub mod and;
pub mod try_blend;

use vstd::prelude::*;

verus! {

/// The token a blender is blended with.
pub struct Internal;

/// What polling a future found: its output, or that it is not done yet.
pub enum Polled<T> {
    Ready(T),
    Pending,
}

} // verus!
