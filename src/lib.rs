//! Bridge layer between a process-based host runtime and the yrs collaborative
//! document engine: stable shared-type handles, explicit multi-call
//! transactions, sync-protocol framing, error mapping and event delivery.
pub mod awareness;
pub mod collections;
pub mod doc;
pub mod error;
pub mod event;
pub mod layout;
pub mod native;
pub mod shared_type;
pub mod sync;
pub mod transaction;
pub mod undo;
pub mod undo_observer;
pub mod utils;
pub mod wrap;
