use crate::element::Element;
use crate::error::HeapError;
use crate::heap::HandleView;
use crate::heap::Phase;
use crate::heap::slots_in;
use vstd::prelude::*;

verus! {

/// A typed memory handle whose reservation size is fixed when it is
/// created. `salloc` acquires a zero-filled reservation of that size, and
/// `free` releases it. A reservation must be released before the next one
/// is acquired.
pub struct Sallocator<T> {
    size: usize,
    handle: crate::heap::Sallocator<T>,
}

impl<T: Element> View for Sallocator<T> {
    type V = HandleView<T>;

    closed spec fn view(&self) -> HandleView<T> {
        self.handle@
    }
}

impl<T: Element> Sallocator<T> {
    pub closed spec fn wf(&self) -> bool {
        &&& self.handle.wf()
        &&& self.handle@.phase != Phase::Destroyed
    }

    /// A well-formed handle has a well-formed abstract state that is never
    /// torn down.
    pub proof fn lemma_wf(&self)
        requires
            self.wf(),
        ensures
            self@.well_formed(),
            self@.phase != Phase::Destroyed,
    {
        self.handle.lemma_wf();
    }

    /// The byte size that every acquisition of this handle reserves.
    pub closed spec fn reservation_size(&self) -> nat {
        self.size as nat
    }

    /// Creates a handle that reserves `size` bytes at each acquisition; no
    /// memory is taken yet.
    pub fn new(size: usize) -> (r: Self)
        ensures
            r.wf(),
            r@ == HandleView::<T>::fresh(),
            r.reservation_size() == size,
    {
        Sallocator { size, handle: crate::heap::Sallocator::ready() }
    }

    /// Acquires a zero-filled reservation of the size fixed at creation.
    /// Refused while a reservation is live; the global allocator may refuse
    /// the memory too, unless the reservation is too small to hold an
    /// element and so needs none.
    pub fn salloc(&mut self) -> (r: Result<(), HeapError>)
        requires
            old(self).wf(),
        ensures
            final(self).wf(),
            final(self).reservation_size() == old(self).reservation_size(),
            match old(self)@.malloc_refusal() {
                Some(e) => r == Err::<(), HeapError>(e) && final(self)@ == old(self)@,
                None => (r is Ok && final(self)@ == old(self)@.granted(old(self).reservation_size()))
                    || (r == Err::<(), HeapError>(HeapError::SallocMallocFailed) && final(self)@
                    == old(self)@),
            },
            old(self)@.malloc_refusal() is None && slots_in::<T>(old(self).reservation_size()) == 0
                ==> r is Ok,
    {
        self.handle.malloc(self.size)
    }

    /// Writes `el` at element `index` of the live reservation.
    pub fn set(&mut self, index: isize, el: T) -> (r: Result<(), HeapError>)
        requires
            old(self).wf(),
        ensures
            final(self).wf(),
            final(self).reservation_size() == old(self).reservation_size(),
            (final(self)@, r) == old(self)@.set_result(index as int, el),
    {
        self.handle.set(index, el)
    }

    /// Reads the element at `index` of the live reservation.
    pub fn get(&self, index: isize) -> (r: Result<T, HeapError>)
        requires
            self.wf(),
        ensures
            r == self@.get_result(index as int),
    {
        self.handle.get(index)
    }

    /// Releases the live reservation. Releasing when nothing is reserved is
    /// reported as an error and changes nothing.
    pub fn free(&mut self) -> (r: Result<(), HeapError>)
        requires
            old(self).wf(),
        ensures
            final(self).wf(),
            final(self).reservation_size() == old(self).reservation_size(),
            (final(self)@, r) == old(self)@.free_result(),
    {
        self.handle.free()
    }
}

} // verus!
