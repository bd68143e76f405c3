//! Small computations on strings.

use vstd::prelude::*;

verus! {

/// A greeting for `name`: `"Hello "`, the name, and `"!"`.
pub fn greeting(name: &str) -> (r: String)
    ensures
        r@ == "Hello "@ + name@ + "!"@,
{
    let mut r = String::from_str("Hello ");
    r.append(name);
    r.append("!");
    r
}

/// The longer of two strings by length in bytes; `y` when they are equally
/// long.
pub fn lifetime_annotations_in_function_signatures<'a>(x: &'a str, y: &'a str) -> (r: &'a str)
    ensures
        r == (if x.len() > y.len() {
            x
        } else {
            y
        }),
{
    if x.len() > y.len() {
        x
    } else {
        y
    }
}

/// Compares two fixed strings by length.
pub fn lifetime_examples() {
    lifetime_annotations_in_function_signatures("sds", "sdfsdfsd");
}

} // verus!
