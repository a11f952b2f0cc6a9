use crate::element::Element;
use crate::error::HeapError;
use vstd::prelude::*;

verus! {

/// Where a handle stands in its lifecycle.
#[derive(Debug, Clone, Copy, PartialEq, Eq, Structural)]
pub enum Phase {
    /// The backing context exists and holds no reservation.
    Ready,
    /// A reservation is live.
    Allocated,
    /// The backing context was torn down; the handle is no longer usable.
    Destroyed,
}

/// The abstract state of a handle: its phase, the byte size of its
/// reservation, and the elements the reservation holds.
pub struct HandleView<T> {
    pub phase: Phase,
    pub bytes: nat,
    pub cells: Seq<T>,
}

/// The number of whole elements of type `T` that fit in `bytes` bytes.
pub open spec fn slots_in<T>(bytes: nat) -> nat {
    bytes / vstd::layout::size_of::<T>()
}

/// `n` elements, each the all-zero value.
pub open spec fn zeros<T: Element>(n: nat) -> Seq<T> {
    Seq::new(n, |i: int| T::zeroed())
}

impl<T: Element> HandleView<T> {
    /// The state of a newly created handle.
    pub open spec fn fresh() -> Self {
        HandleView { phase: Phase::Ready, bytes: 0, cells: Seq::empty() }
    }

    /// The number of elements the reservation holds.
    pub open spec fn slots(self) -> nat {
        slots_in::<T>(self.bytes)
    }

    pub open spec fn well_formed(self) -> bool {
        &&& self.cells.len() == self.slots()
        &&& self.phase != Phase::Allocated ==> self.bytes == 0
    }

    pub open spec fn in_bounds(self, index: int) -> bool {
        0 <= index < self.slots()
    }

    /// The error with which an acquisition fails whatever the allocator
    /// would answer, if any: a live reservation must be released first,
    /// and a torn-down context grants nothing.
    pub open spec fn malloc_refusal(self) -> Option<HeapError> {
        match self.phase {
            Phase::Ready => None,
            Phase::Allocated => Some(HeapError::SallocAlreadyAllocated),
            Phase::Destroyed => Some(HeapError::SallocMallocFailed),
        }
    }

    /// The state after a granted acquisition of `size` bytes, zero-filled.
    pub open spec fn granted(self, size: nat) -> Self {
        HandleView { phase: Phase::Allocated, bytes: size, cells: zeros::<T>(slots_in::<T>(size)) }
    }

    /// The error with which a resize fails whatever the allocator would
    /// answer, if any: only a live reservation can be resized.
    pub open spec fn realloc_refusal(self) -> Option<HeapError> {
        if self.phase == Phase::Allocated {
            None
        } else {
            Some(HeapError::SallocReallocFailed)
        }
    }

    /// The state after a granted resize to `size` bytes: the elements that
    /// still fit are kept, the added ones are zero.
    pub open spec fn resized(self, size: nat) -> Self {
        let n = slots_in::<T>(size);
        let cells = if n <= self.cells.len() {
            self.cells.take(n as int)
        } else {
            self.cells + zeros::<T>((n - self.cells.len()) as nat)
        };
        HandleView { phase: Phase::Allocated, bytes: size, cells }
    }

    /// A resize to `size` bytes needs no fresh memory when it does not grow
    /// the element count.
    pub open spec fn resize_in_place(self, size: nat) -> bool {
        slots_in::<T>(size) <= self.slots()
    }

    /// The state and outcome of writing `v` at `index`.
    pub open spec fn set_result(self, index: int, v: T) -> (Self, Result<(), HeapError>) {
        if self.phase != Phase::Allocated {
            (self, Err(HeapError::SallocSetUnallocated))
        } else if !self.in_bounds(index) {
            (self, Err(HeapError::SallocSetOutOfBound))
        } else {
            (HandleView { cells: self.cells.update(index, v), ..self }, Ok(()))
        }
    }

    /// The outcome of reading at `index`.
    pub open spec fn get_result(self, index: int) -> Result<T, HeapError> {
        if self.phase != Phase::Allocated {
            Err(HeapError::SallocGetUnallocated)
        } else if !self.in_bounds(index) {
            Err(HeapError::SallocGetOutOfBound)
        } else {
            Ok(self.cells[index])
        }
    }

    /// The state and outcome of releasing the reservation; the backing
    /// context stays.
    pub open spec fn free_result(self) -> (Self, Result<(), HeapError>) {
        if self.phase == Phase::Allocated {
            (HandleView { phase: Phase::Ready, bytes: 0, cells: Seq::empty() }, Ok(()))
        } else {
            (self, Err(HeapError::SallocFreeUnallocated))
        }
    }

    /// The state and outcome of tearing the backing context down. A context
    /// that is already gone cannot be torn down again.
    pub open spec fn destroy_result(self) -> (Self, Result<(), HeapError>) {
        let gone = HandleView { phase: Phase::Destroyed, bytes: 0, cells: Seq::empty() };
        if self.phase == Phase::Destroyed {
            (gone, Err(HeapError::SallocDestroyFailed))
        } else {
            (gone, Ok(()))
        }
    }
}

/// A growable typed memory handle. The backing context is set up on
/// creation; a reservation is acquired with `malloc`, resized with
/// `realloc`, released with `free`, and the context is torn down with
/// `destroy`. A second acquisition while a reservation is live is refused.
/// A reservation of fewer bytes than one element is live but holds no
/// addressable element.
pub struct Sallocator<T> {
    size: usize,
    cells: Vec<T>,
    phase: Phase,
}

impl<T: Element> View for Sallocator<T> {
    type V = HandleView<T>;

    closed spec fn view(&self) -> HandleView<T> {
        HandleView { phase: self.phase, bytes: self.size as nat, cells: self.cells@ }
    }
}

impl<T: Element> Sallocator<T> {
    pub closed spec fn wf(&self) -> bool {
        self@.well_formed()
    }

    /// A well-formed handle has a well-formed abstract state: it holds
    /// `bytes / size_of::<T>()` elements, and no bytes unless a reservation
    /// is live.
    pub proof fn lemma_wf(&self)
        requires
            self.wf(),
        ensures
            self@.well_formed(),
    {
    }

    /// Creates a handle with its backing context and no reservation. The
    /// context is the process's own global allocator, so setting it up
    /// cannot be refused.
    pub fn new() -> (r: Result<Self, HeapError>)
        ensures
            r is Ok,
            r matches Ok(h) ==> h.wf() && h@ == HandleView::<T>::fresh(),
    {
        Ok(Self::ready())
    }

    /// A handle with its backing context and no reservation.
    pub(crate) fn ready() -> (r: Self)
        ensures
            r.wf(),
            r@ == HandleView::<T>::fresh(),
    {
        proof {
            T::lemma_occupies_bytes();
        }
        Sallocator { size: 0, cells: Vec::new(), phase: Phase::Ready }
    }

    /// Appends zero elements until `cells` holds `n` of them.
    fn extend_zeroed(cells: &mut Vec<T>, n: usize)
        requires
            old(cells)@.len() <= n,
        ensures
            final(cells)@ == old(cells)@ + zeros::<T>((n - old(cells)@.len()) as nat),
    {
        let start: usize = cells.len();
        while cells.len() < n
            invariant
                start <= cells@.len() <= n,
                start == old(cells)@.len(),
                cells@ == old(cells)@ + zeros::<T>((cells@.len() - start) as nat),
            decreases n - cells@.len(),
        {
            let z = T::zero();
            cells.push(z);
            proof {
                assert(cells@ =~= old(cells)@ + zeros::<T>((cells@.len() - start) as nat));
            }
        }
    }

    /// Acquires a zero-filled reservation of `size` bytes, holding
    /// `size / size_of::<T>()` elements. The memory comes from the global
    /// allocator, which may refuse it; a reservation too small to hold an
    /// element needs no memory and is always granted.
    pub fn malloc(&mut self, size: usize) -> (r: Result<(), HeapError>)
        requires
            old(self).wf(),
        ensures
            final(self).wf(),
            match old(self)@.malloc_refusal() {
                Some(e) => r == Err::<(), HeapError>(e) && final(self)@ == old(self)@,
                None => (r is Ok && final(self)@ == old(self)@.granted(size as nat)) || (r
                    == Err::<(), HeapError>(HeapError::SallocMallocFailed) && final(self)@
                    == old(self)@),
            },
            old(self)@.malloc_refusal() is None && slots_in::<T>(size as nat) == 0 ==> r is Ok,
    {
        proof {
            T::lemma_occupies_bytes();
        }
        match self.phase {
            Phase::Allocated => {
                return Err(HeapError::SallocAlreadyAllocated);
            },
            Phase::Destroyed => {
                return Err(HeapError::SallocMallocFailed);
            },
            Phase::Ready => {},
        }
        let n: usize = size / std::mem::size_of::<T>();
        if n > 0 && self.cells.try_reserve(n).is_err() {
            return Err(HeapError::SallocMallocFailed);
        }
        Self::extend_zeroed(&mut self.cells, n);
        self.size = size;
        self.phase = Phase::Allocated;
        proof {
            assert(self@.cells =~= old(self)@.granted(size as nat).cells);
        }
        Ok(())
    }

    /// Resizes the live reservation to `size` bytes. Elements that still fit
    /// keep their values and added ones are zero. Growing asks the global
    /// allocator for memory, which it may refuse; the handle is then left
    /// as it was.
    pub fn realloc(&mut self, size: usize) -> (r: Result<(), HeapError>)
        requires
            old(self).wf(),
        ensures
            final(self).wf(),
            match old(self)@.realloc_refusal() {
                Some(e) => r == Err::<(), HeapError>(e) && final(self)@ == old(self)@,
                None => (r is Ok && final(self)@ == old(self)@.resized(size as nat)) || (r
                    == Err::<(), HeapError>(HeapError::SallocReallocFailed) && final(self)@
                    == old(self)@ && !old(self)@.resize_in_place(size as nat)),
            },
    {
        proof {
            T::lemma_occupies_bytes();
        }
        if self.phase != Phase::Allocated {
            return Err(HeapError::SallocReallocFailed);
        }
        let n: usize = size / std::mem::size_of::<T>();
        let len: usize = self.cells.len();
        if n <= len {
            self.cells.truncate(n);
        } else {
            if self.cells.try_reserve(n - len).is_err() {
                return Err(HeapError::SallocReallocFailed);
            }
            Self::extend_zeroed(&mut self.cells, n);
        }
        self.size = size;
        proof {
            assert(self@.cells =~= old(self)@.resized(size as nat).cells);
        }
        Ok(())
    }

    /// Writes `el` at element `index` of the live reservation.
    pub fn set(&mut self, index: isize, el: T) -> (r: Result<(), HeapError>)
        requires
            old(self).wf(),
        ensures
            final(self).wf(),
            (final(self)@, r) == old(self)@.set_result(index as int, el),
    {
        if self.phase != Phase::Allocated {
            return Err(HeapError::SallocSetUnallocated);
        }
        if index < 0 || index as usize >= self.cells.len() {
            return Err(HeapError::SallocSetOutOfBound);
        }
        self.cells.set(index as usize, el);
        Ok(())
    }

    /// Reads the element at `index` of the live reservation.
    pub fn get(&self, index: isize) -> (r: Result<T, HeapError>)
        requires
            self.wf(),
        ensures
            r == self@.get_result(index as int),
    {
        if self.phase != Phase::Allocated {
            return Err(HeapError::SallocGetUnallocated);
        }
        if index < 0 || index as usize >= self.cells.len() {
            return Err(HeapError::SallocGetOutOfBound);
        }
        Ok(self.cells[index as usize])
    }

    /// Releases the live reservation; the backing context stays, ready for
    /// another acquisition.
    pub fn free(&mut self) -> (r: Result<(), HeapError>)
        requires
            old(self).wf(),
        ensures
            final(self).wf(),
            (final(self)@, r) == old(self)@.free_result(),
    {
        proof {
            T::lemma_occupies_bytes();
        }
        if self.phase != Phase::Allocated {
            return Err(HeapError::SallocFreeUnallocated);
        }
        self.cells = Vec::new();
        self.size = 0;
        self.phase = Phase::Ready;
        Ok(())
    }

    /// Tears down the backing context together with any live reservation.
    /// Afterwards every acquisition and resize is refused.
    pub fn destroy(&mut self) -> (r: Result<(), HeapError>)
        requires
            old(self).wf(),
        ensures
            final(self).wf(),
            (final(self)@, r) == old(self)@.destroy_result(),
    {
        proof {
            T::lemma_occupies_bytes();
        }
        let was_destroyed = self.phase == Phase::Destroyed;
        self.cells = Vec::new();
        self.size = 0;
        self.phase = Phase::Destroyed;
        if was_destroyed {
            Err(HeapError::SallocDestroyFailed)
        } else {
            Ok(())
        }
    }

    /// The byte size of the live reservation; zero when there is none.
    pub fn byte_size(&self) -> (r: usize)
        ensures
            r == self@.bytes,
    {
        self.size
    }

    /// Where the handle stands in its lifecycle.
    pub fn state(&self) -> (r: Phase)
        ensures
            r == self@.phase,
    {
        self.phase
    }
}

} // verus!
