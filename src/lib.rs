//! An access-control registry for sharing a content identifier (CID) with a
//! fixed set of recipients until an expiry time, with early revocation by the
//! owner.

mod allocator;
mod error;
mod identity;
pub mod share;
pub mod laws;
pub mod registry;

pub use allocator::ShareIdAllocator;
pub use error::ShareError;
pub use identity::Identity;
pub use registry::Registry;
pub use share::{check_share, create_record, revoke_record, ShareMetadata, ShareView};
