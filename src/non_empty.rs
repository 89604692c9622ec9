//! A vector that always holds at least one element.
use vstd::prelude::*;

verus! {

/// Why a vector was refused as a [`NonEmptyVec`].
#[derive(Debug, Clone, Copy, PartialEq, Eq, Hash)]
pub enum NonEmptyVecError {
    /// The vector had no elements.
    Empty,
}

/// An ordered sequence with at least one element. The order of the elements is
/// the order in which they were supplied.
#[derive(Debug, PartialEq, Eq, Hash)]
pub struct NonEmptyVec<T> {
    items: Vec<T>,
}

impl<T> View for NonEmptyVec<T> {
    type V = Seq<T>;

    closed spec fn view(&self) -> Seq<T> {
        self.items@
    }
}

impl<T> NonEmptyVec<T> {
    #[verifier::type_invariant]
    pub open spec fn inv(&self) -> bool {
        self@.len() > 0
    }

    /// Takes `items` as it is, provided it is not empty.
    pub fn try_from(items: Vec<T>) -> (r: Result<NonEmptyVec<T>, NonEmptyVecError>)
        ensures
            r is Ok <==> items@.len() > 0,
            r matches Ok(v) ==> v@ == items@,
            r matches Err(e) ==> e == NonEmptyVecError::Empty,
    {
        if items.len() == 0 {
            Err(NonEmptyVecError::Empty)
        } else {
            Ok(NonEmptyVec { items })
        }
    }

    /// The elements, in order.
    pub fn as_slice(&self) -> (r: &[T])
        ensures
            r@ == self@,
            r@.len() > 0,
    {
        proof {
            use_type_invariant(self);
        }
        self.items.as_slice()
    }

    /// The number of elements, never zero.
    pub fn len(&self) -> (r: usize)
        ensures
            r == self@.len(),
            r > 0,
    {
        proof {
            use_type_invariant(self);
        }
        self.items.len()
    }

    /// Gives the elements back as a plain vector.
    pub fn into_inner(self) -> (r: Vec<T>)
        ensures
            r@ == self@,
            r@.len() > 0,
    {
        proof {
            use_type_invariant(&self);
        }
        self.items
    }
}

impl<T: Clone> Clone for NonEmptyVec<T> {
    fn clone(&self) -> (r: Self)
        ensures
            r@.len() == self@.len(),
            forall|i: int| 0 <= i < self@.len() ==> cloned::<T>(self@[i], #[trigger] r@[i]),
    {
        proof {
            use_type_invariant(self);
        }
        NonEmptyVec { items: self.items.clone() }
    }
}

} // verus!
