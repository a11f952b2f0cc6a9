//! A typed memory handle: one contiguous reservation of elements of a single
//! type, with bounds-checked indexed access, resizing and release, driven by
//! an explicit lifecycle state machine.

pub mod allocator;
pub mod element;
pub mod error;
pub mod heap;
pub mod laws;

pub use element::Element;
pub use error::HeapError;
pub use heap::{HandleView, Phase, Sallocator};
