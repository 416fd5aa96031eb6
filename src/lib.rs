//! Summing integer sequences with overflow checking.
//!
//! [`CheckedAdd`] is addition that reports overflow instead of wrapping; it is
//! implemented for every primitive integer type and can be implemented for
//! newtypes. [`CheckedSum`] sums a sequence of such values left to right and
//! stops at the first addition that overflows.
pub mod add;
pub mod laws;
pub mod sum;

pub use add::CheckedAdd;
pub use sum::CheckedSum;
