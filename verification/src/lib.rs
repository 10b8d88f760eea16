//! Fetching, caching and normalizing of cloud pricing and inventory data.
//!
//! The core is a content-addressable, freshness-aware cache engine that sits
//! in front of any remote loader (`cache`), and a keyed resource pool that
//! builds one shared client per partition key (`util`). Around them stand the
//! bulk-price resource types with their path grammar (`api`) and the
//! savings-plan pivot (`transform`). Network, file system and SDK access stay
//! outside the crate: callers hand in a store, a codec and a loadable, and
//! the engine's contracts say exactly what comes back.

pub mod api;
pub mod cache;
pub mod transform;
pub mod util;
