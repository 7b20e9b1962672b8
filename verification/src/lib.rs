//! A borrowed run of elements as two plain machine words: where it starts and how
//! many elements it has.
//!
//! A [`RustSlice`] is built from a slice on one side of a foreign-function boundary
//! and handed over by value. It owns nothing and keeps no element type: whoever
//! turns it back into a slice names the type and answers for the memory. Its base
//! is never zero, an empty run's included, so that an `Option<RustSlice>` takes
//! the same two words and keeps the zero base for `None`.

mod address;
mod handle;

pub use crate::handle::RustSlice;
pub use crate::handle::Span;
