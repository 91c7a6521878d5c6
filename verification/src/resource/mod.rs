//! Bounded generational ownership of owner-local resources.

pub mod error;
pub mod identity;
pub mod laws;
pub mod slot;
pub mod snapshot;
pub mod table;

pub use error::{ResourceAdmissionError, ResourceAdmissionFailure, ResourceTokenFailure};
pub use identity::{ResourceGeneration, ResourceOwnerId, ResourceSlotId, ResourceToken};
pub use slot::Slot;
pub use snapshot::ResourceTableSnapshot;
pub use table::ResourceTable;
