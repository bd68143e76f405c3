//! The kitchen: meals, and what the chefs decide about them.

use vstd::prelude::*;

verus! {

/// A breakfast: the guest picks the toast, the chef the fruit of the
/// season.
pub struct Breakfast {
    pub toast: String,
    seasonal_fruit: String,
}

/// A starter.
#[derive(Clone, Copy, Debug, PartialEq, Eq, Structural)]
pub enum Appetizer {
    Soup,
    Salad,
}

impl Breakfast {
    /// The toast the guest chose.
    pub closed spec fn spec_toast(&self) -> Seq<char> {
        self.toast@
    }

    /// The fruit that comes with the meal.
    pub closed spec fn fruit(&self) -> Seq<char> {
        self.seasonal_fruit@
    }

    /// A summer breakfast with `toast`, served with peaches.
    pub fn summer(toast: &str) -> (r: Breakfast)
        ensures
            r.spec_toast() == toast@,
            r.fruit() == "peaches"@,
    {
        Breakfast { toast: String::from_str(toast), seasonal_fruit: String::from_str("peaches") }
    }
}

/// Cooks a wrongly made order again and brings it out.
#[allow(dead_code)]
fn fix_incorrect_order() {
    cook_order();
    crate::restaurant::deliver_order();
}

/// Cooks an order.
fn cook_order() {
}

} // verus!
