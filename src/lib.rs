//! Integer arrays seen through non-owning descriptors.
//!
//! A descriptor names a run of `length` integers that starts at position
//! `members` of some backing memory which the descriptor does not own. The
//! backing memory is handed to each operation that reads elements; taking the
//! tail of a descriptor only recomputes the view, so every view derived from a
//! descriptor keeps reading the same backing memory.

pub mod view;

pub use view::{add_one, head, tail, IntArray};
