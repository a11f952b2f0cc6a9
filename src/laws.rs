//! Laws that relate the operations of a typed memory handle, stated over
//! the abstract state that their contracts speak of.
use crate::element::Element;
use crate::error::HeapError;
use crate::heap::HandleView;
use crate::heap::Phase;
use vstd::prelude::*;

verus! {

/// A fresh handle granted room for `n` elements accepts a write at any
/// index below `n`, and reading that index back yields the written value.
pub proof fn lemma_allocate_then_access<T: Element>(n: nat, i: int, v: T)
    requires
        0 <= i < n,
    ensures
        HandleView::<T>::fresh().malloc_refusal() is None,
        ({
            let h = HandleView::<T>::fresh().granted(n * vstd::layout::size_of::<T>());
            let (h2, r) = h.set_result(i, v);
            &&& r is Ok
            &&& h2.get_result(i) == Ok::<T, HeapError>(v)
        }),
{
    T::lemma_occupies_bytes();
    let s = vstd::layout::size_of::<T>() as int;
    vstd::arithmetic::div_mod::lemma_div_multiples_vanish(n as int, s);
    assert(n * s == s * n) by (nonlinear_arith);
}

/// On a live reservation, a write or a read at an index outside
/// `0 .. slots` fails with the out-of-bound error and changes nothing.
pub proof fn lemma_out_of_bound_rejected<T: Element>(h: HandleView<T>, i: int, v: T)
    requires
        h.well_formed(),
        h.phase == Phase::Allocated,
        i < 0 || i >= h.slots(),
    ensures
        h.set_result(i, v) == (h, Err::<(), HeapError>(HeapError::SallocSetOutOfBound)),
        h.get_result(i) == Err::<T, HeapError>(HeapError::SallocGetOutOfBound),
{
}

/// A freshly created handle refuses writes and reads at every index with
/// the unallocated error, and stays as it was.
pub proof fn lemma_unallocated_rejected<T: Element>(i: int, v: T)
    ensures
        HandleView::<T>::fresh().set_result(i, v) == (
            HandleView::<T>::fresh(),
            Err::<(), HeapError>(HeapError::SallocSetUnallocated),
        ),
        HandleView::<T>::fresh().get_result(i) == Err::<T, HeapError>(
            HeapError::SallocGetUnallocated,
        ),
{
}

/// Growing a live reservation keeps every element that was there and
/// reads the added ones as zero.
pub proof fn lemma_resize_preserves_prefix<T: Element>(h: HandleView<T>, m: nat)
    requires
        h.well_formed(),
        h.phase == Phase::Allocated,
        h.bytes < m,
    ensures
        h.realloc_refusal() is None,
        ({
            let g = h.resized(m);
            &&& g.well_formed()
            &&& h.slots() <= g.slots()
            &&& forall|i: int| 0 <= i < h.slots() ==> #[trigger] g.get_result(i) == h.get_result(i)
            &&& forall|i: int|
                h.slots() <= i < g.slots() ==> #[trigger] g.get_result(i) == Ok::<T, HeapError>(
                    T::zeroed(),
                )
        }),
{
    T::lemma_occupies_bytes();
    vstd::arithmetic::div_mod::lemma_div_is_ordered(
        h.bytes as int,
        m as int,
        vstd::layout::size_of::<T>() as int,
    );
    let g = h.resized(m);
    assert(g.cells.len() == g.slots());
}

/// Releasing a live reservation succeeds and leaves no bytes reserved;
/// afterwards writes and reads fail with the unallocated error, and a
/// second release fails with it too.
pub proof fn lemma_free_resets<T: Element>(h: HandleView<T>, i: int, v: T)
    requires
        h.well_formed(),
        h.phase == Phase::Allocated,
    ensures
        ({
            let (g, r) = h.free_result();
            &&& r is Ok
            &&& g.bytes == 0
            &&& g.set_result(i, v) == (g, Err::<(), HeapError>(HeapError::SallocSetUnallocated))
            &&& g.get_result(i) == Err::<T, HeapError>(HeapError::SallocGetUnallocated)
            &&& g.free_result() == (g, Err::<(), HeapError>(HeapError::SallocFreeUnallocated))
        }),
{
}

/// Once the backing context is torn down, every acquisition and every
/// resize is refused, and the handle stays torn down.
pub proof fn lemma_destroy_is_terminal<T: Element>(h: HandleView<T>)
    ensures
        ({
            let g = h.destroy_result().0;
            &&& g.malloc_refusal() == Some(HeapError::SallocMallocFailed)
            &&& g.realloc_refusal() == Some(HeapError::SallocReallocFailed)
            &&& g.destroy_result() == (g, Err::<(), HeapError>(HeapError::SallocDestroyFailed))
        }),
{
}

} // verus!
