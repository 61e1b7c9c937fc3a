//! Filesystem, routing and synchronization services: what each request is answered.

pub mod fs_effects;
pub mod fs_laws;
pub mod fs_service;
pub mod fs_types;
pub mod guard;
pub mod inode_effects;
pub mod inode_service;
pub mod inputs;
pub mod msync;
pub mod path_effects;
pub mod path_laws;
pub mod path_service;
pub mod path_types;
pub mod replies;
pub mod route_service;
pub mod wire;
