//! A stock of shirts in two colours, and which one to give away.

use vstd::prelude::*;

verus! {

/// The colour of a shirt.
#[derive(Clone, Copy, Debug, PartialEq, Eq, Structural)]
pub enum ShirtColor {
    Red,
    Blue,
}

/// How many shirts of `color` stand in `shirts`.
pub open spec fn count_color(shirts: Seq<ShirtColor>, color: ShirtColor) -> nat
    decreases shirts.len(),
{
    if shirts.len() == 0 {
        0
    } else {
        count_color(shirts.drop_last(), color) + if shirts.last() == color {
            1nat
        } else {
            0nat
        }
    }
}

/// The colour with strictly more shirts; blue on a tie.
pub open spec fn most_stocked_color(shirts: Seq<ShirtColor>) -> ShirtColor {
    if count_color(shirts, ShirtColor::Red) > count_color(shirts, ShirtColor::Blue) {
        ShirtColor::Red
    } else {
        ShirtColor::Blue
    }
}

/// The shirts in stock.
pub struct Inventory {
    pub shirts: Vec<ShirtColor>,
}

impl Inventory {
    /// The colour the user asked for, or else the colour most in stock.
    pub fn giveaway(&self, user_preference: Option<ShirtColor>) -> (r: ShirtColor)
        ensures
            r == (match user_preference {
                Some(c) => c,
                None => most_stocked_color(self.shirts@),
            }),
    {
        match user_preference {
            Some(c) => c,
            None => self.most_stocked(),
        }
    }

    /// The colour with strictly more shirts in stock; blue on a tie.
    pub fn most_stocked(&self) -> (r: ShirtColor)
        ensures
            r == most_stocked_color(self.shirts@),
    {
        let mut num_red: usize = 0;
        let mut num_blue: usize = 0;
        let mut i: usize = 0;
        while i < self.shirts.len()
            invariant
                i <= self.shirts@.len(),
                num_red == count_color(self.shirts@.take(i as int), ShirtColor::Red),
                num_blue == count_color(self.shirts@.take(i as int), ShirtColor::Blue),
                num_red + num_blue == i,
            decreases self.shirts@.len() - i,
        {
            proof {
                assert(self.shirts@.take(i + 1).drop_last() =~= self.shirts@.take(i as int));
            }
            match self.shirts[i] {
                ShirtColor::Red => num_red += 1,
                ShirtColor::Blue => num_blue += 1,
            }
            i += 1;
        }
        proof {
            assert(self.shirts@.take(i as int) =~= self.shirts@);
        }
        if num_red > num_blue {
            ShirtColor::Red
        } else {
            ShirtColor::Blue
        }
    }
}

} // verus!
