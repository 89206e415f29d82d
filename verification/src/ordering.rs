//! Version comparison expressed with `std::cmp::Ordering`.
use vstd::prelude::*;
use std::cmp::Ordering;
use crate::version::{version_order, version_sign};

verus! {

/// The ordering that a comparison sign stands for.
pub open spec fn ordering_of(sign: int) -> Ordering {
    if sign < 0 {
        Ordering::Less
    } else if sign == 0 {
        Ordering::Equal
    } else {
        Ordering::Greater
    }
}

/// Compares two dotted versions (see `version_order`).
pub fn version_compare(a: &str, b: &str) -> (o: Ordering)
    ensures
        o == ordering_of(version_order(a@, b@)),
{
    let s = version_sign(a, b);
    if s < 0 {
        Ordering::Less
    } else if s == 0 {
        Ordering::Equal
    } else {
        Ordering::Greater
    }
}

} // verus!
