//! String caches: an in-memory cache and a Redis cluster cache, and the container
//! that picks one according to the configuration.
pub mod bits;
pub mod fields;
pub mod memory;
pub mod redis_cache;

use vstd::prelude::*;
use crate::config::config_api::{ApiProperties, CacheProvider};

verus! {

/// A failure of a cache operation.
#[derive(Debug, Clone)]
pub struct CacheError {
    pub message: String,
}

/// A cache of values of type `T` under string keys.
pub trait ICache<T> {
    /// The value stored for the key, if one is read.
    fn get(&self, key: String) -> Result<Option<T>, CacheError>;

    /// Stores the value for the key; `expire` is the time to live asked for, if any.
    fn set(&mut self, key: String, value: T, expire: Option<i32>) -> Result<bool, CacheError>;

    /// Discards the key's value.
    fn delete(&mut self, key: String) -> Result<bool, CacheError>;
}

/// The cache the configuration selects, for reading.
pub enum CacheRef<'a, M, R> {
    Memory(&'a M),
    Redis(&'a R),
}

/// The cache the configuration selects, for writing.
pub enum CacheMut<'a, M, R> {
    Memory(&'a mut M),
    Redis(&'a mut R),
}

/// Both caches; the configuration decides which one serves.
pub struct CacheContainer<M, R> {
    pub memory_cache: M,
    pub redis_cache: R,
}

impl<M, R> CacheContainer<M, R> {
    pub fn new(memory_cache: M, redis_cache: R) -> (r: Self)
        ensures
            r.memory_cache == memory_cache,
            r.redis_cache == redis_cache,
    {
        CacheContainer { memory_cache, redis_cache }
    }

    fn memory_cache(&self) -> (r: &M)
        ensures
            *r == self.memory_cache,
    {
        &self.memory_cache
    }

    fn redis_cache(&self) -> (r: &R)
        ensures
            *r == self.redis_cache,
    {
        &self.redis_cache
    }

    /// The cache of the configured provider.
    pub fn cache(&self, config: &ApiProperties) -> (r: CacheRef<'_, M, R>)
        ensures
            config.cache.provider == CacheProvider::Memory ==> (r matches CacheRef::Memory(m) && *m == self.memory_cache),
            config.cache.provider == CacheProvider::Redis ==> (r matches CacheRef::Redis(c) && *c == self.redis_cache),
    {
        match config.cache.provider {
            CacheProvider::Memory => CacheRef::Memory(self.memory_cache()),
            CacheProvider::Redis => CacheRef::Redis(self.redis_cache()),
        }
    }

    /// The cache of the configured provider, to write to; the other cache is kept.
    pub fn cache_mut(&mut self, config: &ApiProperties) -> (r: CacheMut<'_, M, R>)
        ensures
            config.cache.provider == CacheProvider::Memory ==> (r matches CacheMut::Memory(m)
                && *m == old(self).memory_cache && final(self).memory_cache == *final(m)
                && final(self).redis_cache == old(self).redis_cache),
            config.cache.provider == CacheProvider::Redis ==> (r matches CacheMut::Redis(c)
                && *c == old(self).redis_cache && final(self).redis_cache == *final(c)
                && final(self).memory_cache == old(self).memory_cache),
    {
        match config.cache.provider {
            CacheProvider::Memory => CacheMut::Memory(&mut self.memory_cache),
            CacheProvider::Redis => CacheMut::Redis(&mut self.redis_cache),
        }
    }
}

} // verus!
