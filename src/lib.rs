//! Local cache of GitHub repositories and crates.io crates for a launcher
//! script filter: when to refresh the cache, how to walk the paginated
//! GitHub listing under its rate limit, how fetched pages flow into the
//! store, and how a lookup falls back to a live search.
pub mod alfred;
pub mod clock;
pub mod config;
pub mod gh_client;
pub mod crate_client;
pub mod sync;
pub mod resolver;
pub mod spawn_daemon;
pub mod db_client;
