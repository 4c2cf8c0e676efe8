//! Value types shared by the rest of the library.

pub mod config;
pub mod permission;
pub mod str_uuid;
pub mod timestamp;

pub use permission::{Permission, PermissionCapability, PermissionKind, PermissionSet};
pub use str_uuid::Uuid;
