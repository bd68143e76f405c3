//! Small computations on numbers and characters.

use vstd::prelude::*;

verus! {

/// `a` plus two.
pub fn add_two(a: i32) -> (r: i32)
    requires
        a <= i32::MAX - 2,
    ensures
        r == a + 2,
{
    a + 2
}

/// One more than the number held, if any.
pub fn plus_one(x: Option<i32>) -> (r: Option<i32>)
    requires
        x is Some ==> x->Some_0 < i32::MAX,
    ensures
        r == (match x {
            None => None,
            Some(i) => Some((i + 1) as i32),
        }),
{
    match x {
        None => None,
        Some(i) => Some(i + 1),
    }
}

/// The greatest number of a non-empty list.
pub fn largest(list: &[i32]) -> (r: &i32)
    requires
        list@.len() > 0,
    ensures
        list@.contains(*r),
        forall|i: int| 0 <= i < list@.len() ==> list@[i] <= *r,
{
    largest_i32(list)
}

/// The greatest number of a non-empty list.
pub fn largest_i32(list: &[i32]) -> (r: &i32)
    requires
        list@.len() > 0,
    ensures
        list@.contains(*r),
        forall|i: int| 0 <= i < list@.len() ==> list@[i] <= *r,
{
    let mut best: usize = 0;
    let mut i: usize = 1;
    while i < list.len()
        invariant
            0 <= best < list@.len(),
            1 <= i <= list@.len(),
            forall|j: int| 0 <= j < i ==> list@[j] <= list@[best as int],
        decreases list@.len() - i,
    {
        if list[i] > list[best] {
            best = i;
        }
        i += 1;
    }
    &list[best]
}

/// The greatest character of a non-empty list, by code point.
pub fn largest_char(list: &[char]) -> (r: &char)
    requires
        list@.len() > 0,
    ensures
        list@.contains(*r),
        forall|i: int| 0 <= i < list@.len() ==> list@[i] <= *r,
{
    let mut best: usize = 0;
    let mut i: usize = 1;
    while i < list.len()
        invariant
            0 <= best < list@.len(),
            1 <= i <= list@.len(),
            forall|j: int| 0 <= j < i ==> list@[j] <= list@[best as int],
        decreases list@.len() - i,
    {
        if list[i] > list[best] {
            best = i;
        }
        i += 1;
    }
    &list[best]
}

} // verus!
