//! Fixed-capacity buffer nodes for hardware data transfers.
//!
//! A [`Node`] owns a block of storage of a compile-time capacity and tracks
//! how many leading elements of it are valid. The [`DMANode`] trait is the
//! operation set: growing the valid prefix only into storage that is known to
//! be initialized, shrinking it on demand, and handing out the storage's base
//! address for an external transfer engine to write into.

pub mod laws;
pub mod node;

pub use node::DMANode;
pub use node::FmtError;
pub use node::Node;
