//! The objects selected for a line, held in a `heapless::Vec` of OAM indexes.
use vstd::prelude::*;

verus! {

/// The maximum number of objects drawn on a line
pub const MAX_SELECTED_OBJECTS: usize = 10;

#[verifier::external_type_specification]
#[verifier::external_body]
#[verifier::reject_recursive_types(T)]
pub struct ExHeaplessVec<T, const N: usize>(heapless::Vec<T, N>);

/// The OAM indexes that a selection holds, in order.
pub uninterp spec fn selection_items(v: heapless::Vec<usize, 10>) -> Seq<usize>;

/// `heapless::Vec::new`: an empty vector.
#[verifier::external_body]
pub(crate) fn selection_new() -> (r: heapless::Vec<usize, 10>)
    ensures
        selection_items(r) == Seq::<usize>::empty(),
{
    heapless::Vec::new()
}

/// `heapless::Vec::push`: appends `item` when fewer than 10 items are held, else leaves the
/// vector unchanged (and the item is handed back). The result tells whether it was appended.
#[verifier::external_body]
pub(crate) fn selection_push(v: &mut heapless::Vec<usize, 10>, item: usize) -> (r: bool)
    ensures
        r <==> selection_items(*old(v)).len() < 10,
        r ==> selection_items(*final(v)) == selection_items(*old(v)).push(item),
        !r ==> selection_items(*final(v)) == selection_items(*old(v)),
{
    v.push(item).is_ok()
}

/// `heapless::Vec::as_slice`: the items held, at most 10.
#[verifier::external_body]
pub(crate) fn selection_as_slice(v: &heapless::Vec<usize, 10>) -> (r: &[usize])
    ensures
        r@ == selection_items(*v),
        r@.len() <= 10,
{
    v.as_slice()
}

} // verus!
