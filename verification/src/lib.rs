//! Verified core of a host-firewall rule manager.
//!
//! The library owns the logic of a small packet-filter management tool:
//! a fixed provider/sublayer identity under which every rule it creates is
//! grouped, transactional mutation of the rule set, an ownership check that
//! gates every edit or delete, paged catalog enumeration, and the assembly
//! of a human-readable snapshot of the whole rule database.
//!
//! The platform's filtering engine is represented by an in-memory store
//! ([`store::EngineStore`]) that models the slice of engine state this tool
//! reads and writes; the session, transaction, CRUD, enumeration and
//! snapshot logic is implemented and verified against that model.

pub mod action;
pub mod catalog;
pub mod config;
pub mod entry;
pub mod error;
pub mod ids;
pub mod laws;
pub mod session;
pub mod snapshot;
pub mod store;

pub use action::WfpAction;
pub use config::FilterConfig;
pub use error::WfpError;
pub use ids::Guid;
pub use session::Engine;
pub use snapshot::FilterSummary;
pub use snapshot::NamedGuid;
pub use snapshot::Snapshot;
pub use store::EngineStore;
