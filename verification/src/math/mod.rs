pub mod bounds;
pub mod fixed;
pub mod vector2;

use vstd::prelude::*;

verus! {

/// Length and direction of a vector.
pub trait VectorOps: Sized {
    type Output;

    /// The Euclidean length of the vector.
    spec fn len_spec(&self) -> Self::Output;

    /// Whether the vector has a direction: its length is not zero.
    spec fn normal_req(&self) -> bool;

    /// The vector divided by its length.
    spec fn normal_spec(&self) -> Self;

    fn len(&self) -> (r: Self::Output)
        ensures
            r == self.len_spec(),
    ;

    fn normal(&self) -> (r: Self)
        requires
            self.normal_req(),
        ensures
            r == self.normal_spec(),
    ;
}

} // verus!
