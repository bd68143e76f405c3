//! A guest's visit to the restaurant.

use vstd::prelude::*;

use crate::front_of_house::hosting;

verus! {

/// Puts the guest on the waiting list, by full path and by relative path.
pub fn eat_at_restaurant() {
    crate::front_of_house::hosting::add_to_waitlist();
    hosting::add_to_waitlist();
}

/// Brings an order to its table.
pub(crate) fn deliver_order() {
}

} // verus!
