//! Shoes, and picking those of one size.

use vstd::prelude::*;

verus! {

/// A shoe: its size and its style.
#[derive(PartialEq, Debug)]
pub struct Shoe {
    pub size: u32,
    pub style: String,
}

/// Something that hands out items one at a time until none are left.
pub trait IteratorExample {
    type Item;

    fn next(&mut self) -> Option<Self::Item>;
}

/// The shoes of size `shoe_size`, in their order in `shoes`.
pub fn shoes_in_size(shoes: Vec<Shoe>, shoe_size: u32) -> (r: Vec<Shoe>)
    ensures
        r@ == shoes@.filter(|s: Shoe| s.size == shoe_size),
{
    let ghost all = shoes@;
    let ghost pred = |s: Shoe| s.size == shoe_size;
    let mut r: Vec<Shoe> = Vec::new();
    for s in it: shoes.into_iter()
        invariant
            it.seq() == all,
            pred == (|s: Shoe| s.size == shoe_size),
            r@ == all.take(it.index() as int).filter(pred),
    {
        let ghost i = it.index() as int;
        let ghost before = r@;
        let keep = s.size == shoe_size;
        if keep {
            r.push(s);
        }
        proof {
            assert(all.take(i + 1).drop_last() =~= all.take(i));
            reveal(Seq::filter);
        }
    }
    proof {
        assert(all.take(all.len() as int) =~= all);
    }
    r
}

} // verus!
