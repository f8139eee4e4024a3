//! Repositories over the local store.

pub mod ditto_local_cache_repository;

pub use ditto_local_cache_repository::DittoLocalCacheRepository;
