//! Generic helpers: the largest element of a vector, and a couple of
//! generic coordinate types.

use vstd::prelude::*;
use vstd::std_specs::cmp::PartialOrdSpec;
use core::cmp::Ordering;

verus! {

/// Whether the second value compares strictly greater than the first.
pub open spec fn gt_spec<T: PartialOrd>(candidate: T, current: T) -> bool {
    candidate.partial_cmp_spec(&current) == Some(Ordering::Greater)
}

/// The element a left-to-right "keep the larger" scan settles on.
pub open spec fn largest_spec<T: PartialOrd>(s: Seq<T>) -> T
    recommends
        s.len() > 0,
    decreases s.len(),
{
    if s.len() <= 1 {
        s[0]
    } else {
        let prev = largest_spec(s.drop_last());
        if gt_spec(s.last(), prev) {
            s.last()
        } else {
            prev
        }
    }
}

/// Scans the vector and keeps whichever element compares greater, starting
/// from the first.
pub fn largest_element_in_vector<T: PartialOrd + Copy>(vec: Vec<T>) -> (largest: T)
    requires
        vec@.len() > 0,
        T::obeys_partial_cmp_spec(),
    ensures
        largest == largest_spec(vec@),
{
    let mut largest: T = vec[0];
    let mut i: usize = 1;
    proof {
        assert(vec@.subrange(0, 1).drop_last() =~= vec@.subrange(0, 0));
        assert(largest == largest_spec(vec@.subrange(0, 1)));
    }
    while i < vec.len()
        invariant
            1 <= i <= vec@.len(),
            T::obeys_partial_cmp_spec(),
            largest == largest_spec(vec@.subrange(0, i as int)),
        decreases vec@.len() - i,
    {
        let element = vec[i];
        proof {
            assert(vec@.subrange(0, i + 1).drop_last() =~= vec@.subrange(0, i as int));
            assert(vec@.subrange(0, i + 1).last() == vec@[i as int]);
        }
        if element > largest {
            largest = element;
        }
        i += 1;
    }
    proof {
        assert(vec@.subrange(0, vec@.len() as int) =~= vec@);
    }
    largest
}

/// A point whose two coordinates may have different types.
#[derive(Debug)]
pub struct Point<T, U> {
    pub x: T,
    pub y: U,
}

/// A coordinate pair of one type.
#[derive(Debug)]
pub struct Coordinate<T> {
    pub x: T,
    pub y: T,
}

impl<T> Coordinate<T> {
    /// The first coordinate.
    pub fn x(&self) -> (r: &T)
        ensures
            *r == self.x,
    {
        &self.x
    }
}

} // verus!
