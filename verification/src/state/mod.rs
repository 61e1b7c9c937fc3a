//! What a metadata group stores, and what is asked of the store.

pub mod memory;
pub mod types;
