//! A `Vec`-shaped container with `u8` length and capacity. The handle takes 16 bytes on 64-bit
//! targets, where `Vec` takes 24, and a new container owns no heap memory.
//!
//! [`LazyVec`] is meant for the many small vectors of task storages, which hold a few dozen
//! elements at most. Its API is a subset of `Vec`'s: `len`, `is_empty`, `iter`, `iter_mut`,
//! `push`, `swap_remove`, `last_mut`, `index`, `index_mut`, `extend`, `reserve`,
//! `shrink_to_fit`, `Default`, and iteration by value and by reference.
//!
//! Capacity is bounded by [`MAX_CAPACITY`], which is `u8::MAX`. The first allocation has room for
//! four elements, and each later one doubles the room up to that ceiling.
//!
//! The contracts speak of a container through its view, [`LazyVecView`]: the elements in
//! insertion order, and the capacity. What holds of several operations together is stated and
//! proved in [`laws`].
mod buffer;
pub mod capacity;
mod into_iter;
pub mod laws;
mod lazy_vec;
pub mod slice_iter;
pub mod view;

pub use capacity::MAX_CAPACITY;
pub use into_iter::IntoIter;
pub use lazy_vec::LazyVec;
pub use view::LazyVecView;
