//! Shared handles to sub-regions of a reference-counted allocation.
//!
//! A [`Subrc`] keeps a whole parent allocation alive while exposing only a
//! validated sub-region of it. The byte offset of the sub-region is checked
//! once, at construction; every later access reuses the stored offset.

pub mod handle;
pub mod offset;

pub use handle::Subrc;
pub use offset::compute_offset;
pub use offset::ContainmentError;
