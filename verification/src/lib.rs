//! Metadata control plane of a distributed file system.

pub mod clock;
pub mod endpoint;
pub mod error;
pub mod ids;
pub mod placement;
pub mod raft;
pub mod rpc;
pub mod service;
pub mod session_registry;
pub mod state;
pub mod table;
pub mod text;
pub mod ufs_proxy;
pub mod worker;
pub mod write_session;
pub mod write_target;
