use vstd::prelude::*;

verus! {

/// An element type that a handle can store: a plain value of fixed, nonzero
/// byte width, with an all-zero value used to fill fresh memory.
pub trait Element: Copy + Sized {
    /// The value whose bytes are all zero.
    spec fn zeroed() -> Self;

    fn zero() -> (r: Self)
        ensures
            r == Self::zeroed(),
    ;

    /// Every element occupies at least one byte, so a byte count converts
    /// to an element count.
    proof fn lemma_occupies_bytes()
        ensures
            vstd::layout::size_of::<Self>() > 0,
    ;
}

impl Element for u8 {
    open spec fn zeroed() -> Self {
        0
    }

    fn zero() -> (r: Self) {
        0
    }

    proof fn lemma_occupies_bytes() {
        broadcast use vstd::layout::layout_of_primitives;

        assert(vstd::layout::size_of::<u8>() > 0);
    }
}

impl Element for u16 {
    open spec fn zeroed() -> Self {
        0
    }

    fn zero() -> (r: Self) {
        0
    }

    proof fn lemma_occupies_bytes() {
        broadcast use vstd::layout::layout_of_primitives;

        assert(vstd::layout::size_of::<u16>() > 0);
    }
}

impl Element for u32 {
    open spec fn zeroed() -> Self {
        0
    }

    fn zero() -> (r: Self) {
        0
    }

    proof fn lemma_occupies_bytes() {
        broadcast use vstd::layout::layout_of_primitives;

        assert(vstd::layout::size_of::<u32>() > 0);
    }
}

impl Element for u64 {
    open spec fn zeroed() -> Self {
        0
    }

    fn zero() -> (r: Self) {
        0
    }

    proof fn lemma_occupies_bytes() {
        broadcast use vstd::layout::layout_of_primitives;

        assert(vstd::layout::size_of::<u64>() > 0);
    }
}

impl Element for usize {
    open spec fn zeroed() -> Self {
        0
    }

    fn zero() -> (r: Self) {
        0
    }

    proof fn lemma_occupies_bytes() {
        broadcast use vstd::layout::layout_of_primitives;

        assert(vstd::layout::size_of::<usize>() > 0);
    }
}

impl Element for i8 {
    open spec fn zeroed() -> Self {
        0
    }

    fn zero() -> (r: Self) {
        0
    }

    proof fn lemma_occupies_bytes() {
        broadcast use vstd::layout::layout_of_primitives;

        assert(vstd::layout::size_of::<i8>() > 0);
    }
}

impl Element for i16 {
    open spec fn zeroed() -> Self {
        0
    }

    fn zero() -> (r: Self) {
        0
    }

    proof fn lemma_occupies_bytes() {
        broadcast use vstd::layout::layout_of_primitives;

        assert(vstd::layout::size_of::<i16>() > 0);
    }
}

impl Element for i32 {
    open spec fn zeroed() -> Self {
        0
    }

    fn zero() -> (r: Self) {
        0
    }

    proof fn lemma_occupies_bytes() {
        broadcast use vstd::layout::layout_of_primitives;

        assert(vstd::layout::size_of::<i32>() > 0);
    }
}

impl Element for i64 {
    open spec fn zeroed() -> Self {
        0
    }

    fn zero() -> (r: Self) {
        0
    }

    proof fn lemma_occupies_bytes() {
        broadcast use vstd::layout::layout_of_primitives;

        assert(vstd::layout::size_of::<i64>() > 0);
    }
}

impl Element for isize {
    open spec fn zeroed() -> Self {
        0
    }

    fn zero() -> (r: Self) {
        0
    }

    proof fn lemma_occupies_bytes() {
        broadcast use vstd::layout::layout_of_primitives;

        assert(vstd::layout::size_of::<isize>() > 0);
    }
}

} // verus!
