//! Stored state.

use beryl_metadata::ids::{BlockId, BlockIndex, DataHandleId};
use beryl_metadata::state::memory::MemoryStateStore;
use beryl_metadata::state::types::{DeleteIntentStatus, LayoutVersion, StateStore};

#[test]
fn test_block_id_format() {
    let data_handle_id = DataHandleId::new(42);
    let block_index = BlockIndex::new(7);
    let block_id = BlockId::new(data_handle_id, block_index);

    assert_eq!(block_id.data_handle_id.as_raw(), 42);
    assert_eq!(block_id.index.as_raw(), 7);
    assert_eq!(block_id.to_text(), "42:7");
}

#[test]
fn test_layout_version() {
    let v1 = LayoutVersion::new(1);
    let v2 = LayoutVersion::new(2);

    assert_eq!(v1.as_u64(), 1);
    assert_eq!(v2.as_u64(), 2);
    assert_ne!(v1, v2);
}

#[test]
fn a_new_store_starts_at_its_first_epoch() {
    let store = MemoryStateStore::new();
    assert_eq!(store.get_route_epoch().unwrap(), store.route_epoch);
    assert_eq!(DeleteIntentStatus::default(), DeleteIntentStatus::Pending);
}
