use vstd::prelude::*;

verus! {

/// Why an operation on a handle did not take effect.
#[derive(Debug, Clone, Copy, PartialEq, Eq, Structural)]
pub enum HeapError {
    /// The backing context could not be set up. The context here is the
    /// process's global allocator, so no operation returns this.
    SallocCreateFailed,
    /// The memory for an acquisition was refused, or the context is gone.
    SallocMallocFailed,
    /// A resize was refused, or there is no live reservation to resize.
    SallocReallocFailed,
    /// A write was attempted with no live reservation.
    SallocSetUnallocated,
    /// A read was attempted with no live reservation.
    SallocGetUnallocated,
    /// A release was attempted with no live reservation.
    SallocFreeUnallocated,
    /// A write index lies outside the reservation.
    SallocSetOutOfBound,
    /// A read index lies outside the reservation.
    SallocGetOutOfBound,
    /// The release of a reservation was refused. Releasing memory to the
    /// global allocator cannot fail, so no operation returns this.
    SallocFreeFailed,
    /// The backing context could not be torn down, as it is already gone.
    SallocDestroyFailed,
    /// An acquisition was attempted while a reservation is live.
    SallocAlreadyAllocated,
}

impl HeapError {
    /// The variant's name, as shown to a user.
    pub open spec fn name(self) -> Seq<char> {
        match self {
            HeapError::SallocCreateFailed => "SallocCreateFailed"@,
            HeapError::SallocMallocFailed => "SallocMallocFailed"@,
            HeapError::SallocReallocFailed => "SallocReallocFailed"@,
            HeapError::SallocSetUnallocated => "SallocSetUnallocated"@,
            HeapError::SallocGetUnallocated => "SallocGetUnallocated"@,
            HeapError::SallocFreeUnallocated => "SallocFreeUnallocated"@,
            HeapError::SallocSetOutOfBound => "SallocSetOutOfBound"@,
            HeapError::SallocGetOutOfBound => "SallocGetOutOfBound"@,
            HeapError::SallocFreeFailed => "SallocFreeFailed"@,
            HeapError::SallocDestroyFailed => "SallocDestroyFailed"@,
            HeapError::SallocAlreadyAllocated => "SallocAlreadyAllocated"@,
        }
    }

    pub fn to_string(&self) -> (r: String)
        ensures
            r@ == self.name(),
    {
        let s: &str = match *self {
            HeapError::SallocCreateFailed => "SallocCreateFailed",
            HeapError::SallocMallocFailed => "SallocMallocFailed",
            HeapError::SallocReallocFailed => "SallocReallocFailed",
            HeapError::SallocSetUnallocated => "SallocSetUnallocated",
            HeapError::SallocGetUnallocated => "SallocGetUnallocated",
            HeapError::SallocFreeUnallocated => "SallocFreeUnallocated",
            HeapError::SallocSetOutOfBound => "SallocSetOutOfBound",
            HeapError::SallocGetOutOfBound => "SallocGetOutOfBound",
            HeapError::SallocFreeFailed => "SallocFreeFailed",
            HeapError::SallocDestroyFailed => "SallocDestroyFailed",
            HeapError::SallocAlreadyAllocated => "SallocAlreadyAllocated",
        };
        s.to_owned()
    }
}

} // verus!
