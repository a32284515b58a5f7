//! A cache-aside read-through core for an hourly occupancy feed.
//!
//! Requests for a studio's occupancy snapshot are answered from a
//! time-bucketed cache: the bucket key is derived from the studio id and the
//! current clock hour, a missing "yesterday" bucket is recovered by picking
//! the newest key among the stored buckets of that day, and a miss on the
//! concrete key falls back to an upstream fetch whose result is written back
//! to the cache. The key scheme, the newest-key selection, the resolution
//! protocol, the response filtering policy and the periodic refresh schedule
//! live here; the key-value store and the upstream endpoint are driven by a
//! thin unverified shell around this crate.

pub mod errors;
pub mod keys;
pub mod model;
pub mod refresher;
pub mod resolver;
pub mod select;
pub mod time;
