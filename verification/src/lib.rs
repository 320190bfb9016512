//! Splitting an owned fixed-length sequence into two owned fixed-length
//! sequences.
//!
//! The single operation of this crate, [`SplitOwned::split_owned`], consumes a
//! sequence of `N` owned elements and hands the first `K` of them to a left
//! output and the remaining `L` to a right output, in their original order.
//! The element type needs no capability at all — in particular it need not be
//! duplicable — because every element is moved exactly once, out of the source
//! and into exactly one output slot.
//!
//! The arity constraint `N == K + L` is a precondition checked while the
//! program is verified: a call site that breaks it does not pass verification,
//! so the violation never reaches a running program.

pub mod fixed_seq;
pub mod laws;
pub mod split;

pub use fixed_seq::FixedSeq;
pub use split::split_left;
pub use split::split_right;
pub use split::SplitOwned;
