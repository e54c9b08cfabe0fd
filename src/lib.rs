//! Local environment manager for a versioned node binary: version algebra,
//! release selection, installation planning and process supervision.

pub mod calendar;
pub mod channel;
pub mod registry;
pub mod stable;
pub mod store;
pub mod supervisor;
pub mod text;
pub mod version;
