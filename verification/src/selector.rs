//! The selector: maps the user's chosen indices onto the catalog.
//!
//! An empty selection is meaningful: it asks for the whole catalog, in
//! catalog order. A non-empty selection yields the entries at those indices,
//! in the order the indices were given.

use vstd::prelude::*;

use crate::catalog::UpdateCommand;

verus! {

/// Every index of the selection is a valid position in the catalog.
pub open spec fn selection_valid(selection: Seq<usize>, len: nat) -> bool {
    forall|i: int| 0 <= i < selection.len() ==> selection[i] < len
}

/// Resolves a selection against the catalog. An empty selection returns the
/// whole catalog in its order; otherwise the entries at the selected indices,
/// in the selection's order. Out-of-range indices break the caller's
/// contract, since selections come from a widget bounded by the same catalog.
#[verifier::loop_isolation(false)]
pub fn resolve(catalog: &Vec<UpdateCommand>, selection: &Vec<usize>) -> (r: Vec<UpdateCommand>)
    requires
        selection_valid(selection@, catalog@.len()),
    ensures
        selection@.len() == 0 ==> r@.len() == catalog@.len(),
        selection@.len() == 0 ==> forall|i: int| 0 <= i < r@.len() ==> r@[i]@ == catalog@[i]@,
        selection@.len() > 0 ==> r@.len() == selection@.len(),
        selection@.len() > 0 ==> forall|i: int|
            0 <= i < r@.len() ==> r@[i]@ == catalog@[selection@[i] as int]@,
{
    let mut r: Vec<UpdateCommand> = Vec::new();
    if selection.len() == 0 {
        let mut i: usize = 0;
        while i < catalog.len()
            invariant
                i <= catalog@.len(),
                r@.len() == i,
                forall|j: int| 0 <= j < i ==> r@[j]@ == catalog@[j]@,
            decreases catalog@.len() - i,
        {
            r.push(catalog[i].duplicate());
            i = i + 1;
        }
    } else {
        let mut i: usize = 0;
        while i < selection.len()
            invariant
                i <= selection@.len(),
                r@.len() == i,
                forall|j: int| 0 <= j < i ==> r@[j]@ == catalog@[selection@[j] as int]@,
            decreases selection@.len() - i,
        {
            r.push(catalog[selection[i]].duplicate());
            i = i + 1;
        }
    }
    r
}

} // verus!
