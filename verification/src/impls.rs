//! Containers that the capabilities are implemented for.
pub mod slab_adapter;
