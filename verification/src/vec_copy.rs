//! Copying a vector of plain values element by element.

use vstd::prelude::*;

verus! {

/// A fresh vector holding the same values as `items`, in the same order.
pub fn copy_all<T: Copy>(items: &Vec<T>) -> (copy: Vec<T>)
    ensures
        copy@ == items@,
{
    let mut copy: Vec<T> = Vec::new();
    let mut index: usize = 0;
    while index < items.len()
        invariant
            index <= items.len(),
            copy@ == items@.take(index as int),
        decreases items.len() - index,
    {
        copy.push(items[index]);
        index = index + 1;
        proof {
            assert(copy@ =~= items@.take(index as int));
        }
    }
    proof {
        assert(items@.take(index as int) =~= items@);
    }
    copy
}

} // verus!
