//! Flags of the four doors: row 1 left, row 1 right, row 2 left, row 2 right.

use vstd::prelude::*;

verus! {

/// Some flag is set.
pub open spec fn any(flags: Seq<bool>) -> bool {
    exists|i: int| 0 <= i < flags.len() && #[trigger] flags[i]
}

/// Every flag is set.
pub open spec fn every(flags: Seq<bool>) -> bool {
    forall|i: int| 0 <= i < flags.len() ==> #[trigger] flags[i]
}

/// Four flags that are all clear.
pub open spec fn none_set() -> Seq<bool> {
    seq![false, false, false, false]
}

/// True iff some flag is set.
pub fn any_set(flags: &[bool; 4]) -> (r: bool)
    ensures
        r == any(flags@),
{
    let r = flags[0] || flags[1] || flags[2] || flags[3];
    assert(r == any(flags@)) by {
        if r {
            assert(flags@[0] || flags@[1] || flags@[2] || flags@[3]);
        }
    }
    r
}

/// True iff every flag is set.
pub fn all_set(flags: &[bool; 4]) -> (r: bool)
    ensures
        r == every(flags@),
{
    let r = flags[0] && flags[1] && flags[2] && flags[3];
    assert(r == every(flags@)) by {
        if every(flags@) {
            assert(flags@[0] && flags@[1] && flags@[2] && flags@[3]);
        }
    }
    r
}

/// Four clear flags.
pub fn no_flags() -> (r: [bool; 4])
    ensures
        r@ == none_set(),
{
    let r = [false, false, false, false];
    assert(r@ =~= none_set());
    r
}

} // verus!
