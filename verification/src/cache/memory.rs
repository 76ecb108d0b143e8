//! The in-memory string cache, kept in a `moka` cache. Hash entries are stored as
//! the JSON text of their fields; bitmaps as the bytes of the stored text.
use moka::policy::EvictionPolicy;
use moka::sync::{Cache, CacheBuilder};
use regex::Regex;
use vstd::prelude::*;
use vstd::string::*;
use crate::cache::bits::{bit_at, bit_of_text, law_bit_written_is_read, lossy_text, stored_bytes, text_view, text_with_bit, with_bit};
use vstd::utf8::*;
use crate::cache::fields::{
    decode_or_empty, decoded_or_empty, distinct_fields, field_map, fields_get, fields_insert,
    fields_insert_all, fields_merged, fields_names, fields_remove, json_encode_fields,
    json_fields_decoded, json_fields_encoded,
};
use crate::cache::{CacheError, ICache};
use crate::config::config_api::MemoryProperties;
use crate::text::{str_eq, str_to_uppercase, unicode_uppercase};

verus! {

#[verifier::external_type_specification]
#[verifier::external_body]
#[verifier::reject_recursive_types(K)]
#[verifier::reject_recursive_types(V)]
#[verifier::reject_recursive_types(S)]
pub struct ExMokaCache<K, V, S>(Cache<K, V, S>);

#[verifier::external_type_specification]
#[verifier::external_body]
#[verifier::reject_recursive_types(K)]
#[verifier::reject_recursive_types(V)]
#[verifier::reject_recursive_types(C)]
pub struct ExMokaCacheBuilder<K, V, C>(CacheBuilder<K, V, C>);

#[verifier::external_type_specification]
#[verifier::external_body]
pub struct ExEvictionPolicy(EvictionPolicy);

/// The longest time to live `moka` accepts: 1000 years of 365 days, in milliseconds.
pub const MAX_TTL_MILLIS: u64 = 31_536_000_000_000;

/// The entries written to a `moka` cache and not discarded since. `moka` may drop
/// any of them at any time (expiry, eviction), so a read of a key here may miss;
/// a read never returns a value other than the one here.
pub uninterp spec fn cache_entries(cache: Cache<String, String>) -> Map<Seq<char>, Seq<char>>;

type StringCacheBuilder = CacheBuilder<String, String, Cache<String, String>>;

/// The limits and policy a builder holds: each as given (`None`: not given).
pub uninterp spec fn moka_builder_settings(builder: StringCacheBuilder) -> MemoryCacheSettings;

/// The limits and policy a cache was built with.
pub uninterp spec fn cache_settings(cache: Cache<String, String>) -> MemoryCacheSettings;

/// `Cache::builder`: no limit or policy given yet.
#[verifier::external_body]
fn moka_builder() -> (r: StringCacheBuilder)
    ensures
        moka_builder_settings(r) == (MemoryCacheSettings {
            initial_capacity: None,
            max_capacity: None,
            ttl_millis: None,
            eviction: None,
        }),
{
    Cache::builder()
}

/// `CacheBuilder::initial_capacity`.
#[verifier::external_body]
fn builder_initial_capacity(builder: StringCacheBuilder, capacity: usize) -> (r: StringCacheBuilder)
    ensures
        moka_builder_settings(r) == (MemoryCacheSettings { initial_capacity: Some(capacity), ..moka_builder_settings(builder) }),
{
    builder.initial_capacity(capacity)
}

/// `CacheBuilder::max_capacity`.
#[verifier::external_body]
fn builder_max_capacity(builder: StringCacheBuilder, capacity: u64) -> (r: StringCacheBuilder)
    ensures
        moka_builder_settings(r) == (MemoryCacheSettings { max_capacity: Some(capacity), ..moka_builder_settings(builder) }),
{
    builder.max_capacity(capacity)
}

/// `CacheBuilder::time_to_live` of `millis` milliseconds. `CacheBuilder::build`
/// panics on a time to live over 1000 years, so longer ones are left out.
#[verifier::external_body]
fn builder_time_to_live(builder: StringCacheBuilder, millis: u64) -> (r: StringCacheBuilder)
    requires
        millis <= MAX_TTL_MILLIS,
    ensures
        moka_builder_settings(r) == (MemoryCacheSettings { ttl_millis: Some(millis), ..moka_builder_settings(builder) }),
{
    builder.time_to_live(std::time::Duration::from_millis(millis))
}

/// `CacheBuilder::eviction_policy` with `EvictionPolicy::lru()`,
/// `EvictionPolicy::tiny_lfu()` or `EvictionPolicy::default()`.
#[verifier::external_body]
fn builder_eviction_policy(builder: StringCacheBuilder, kind: EvictionKind) -> (r: StringCacheBuilder)
    ensures
        moka_builder_settings(r) == (MemoryCacheSettings { eviction: Some(kind), ..moka_builder_settings(builder) }),
{
    builder.eviction_policy(match kind {
        EvictionKind::Lru => EvictionPolicy::lru(),
        EvictionKind::TinyLfu => EvictionPolicy::tiny_lfu(),
        EvictionKind::Default => EvictionPolicy::default(),
    })
}

/// `CacheBuilder::build`: a new cache holds no entry, and has the builder's
/// limits and policy.
#[verifier::external_body]
fn builder_build(builder: StringCacheBuilder) -> (r: Cache<String, String>)
    ensures
        cache_entries(r).is_empty(),
        cache_settings(r) == moka_builder_settings(builder),
{
    builder.build()
}

/// `Cache::get`: the value stored for the key, or nothing (never written,
/// discarded, expired or evicted). A cache with neither a maximum capacity nor
/// a time to live neither evicts nor expires, so there the stored value is found.
#[verifier::external_body]
fn cache_get(cache: &Cache<String, String>, key: &String) -> (r: Option<String>)
    ensures
        r matches Some(v) ==> cache_entries(*cache).contains_key(key@) && cache_entries(*cache)[key@] == v@,
        never_drops(cache_settings(*cache)) && cache_entries(*cache).contains_key(key@) ==> r is Some,
        never_drops(cache_settings(*cache)) ==> text_view(r) == stored_read(cache_entries(*cache), key@),
{
    cache.get(key)
}

/// `Cache::contains_key`: true only for a key that is in the entries; in a cache
/// that never drops entries, true for every key in them.
#[verifier::external_body]
fn cache_contains_key(cache: &Cache<String, String>, key: &String) -> (r: bool)
    ensures
        r ==> cache_entries(*cache).contains_key(key@),
        never_drops(cache_settings(*cache)) && cache_entries(*cache).contains_key(key@) ==> r,
{
    cache.contains_key(key)
}

/// `Cache::insert`: the key now maps to the value.
#[verifier::external_body]
fn cache_insert(cache: &mut Cache<String, String>, key: String, value: String)
    ensures
        cache_entries(*final(cache)) == cache_entries(*old(cache)).insert(key@, value@),
        cache_settings(*final(cache)) == cache_settings(*old(cache)),
{
    cache.insert(key, value)
}

/// `Cache::invalidate`: the key's value is discarded.
#[verifier::external_body]
fn cache_invalidate(cache: &mut Cache<String, String>, key: &String)
    ensures
        cache_entries(*final(cache)) == cache_entries(*old(cache)).remove(key@),
        cache_settings(*final(cache)) == cache_settings(*old(cache)),
{
    cache.invalidate(key)
}

/// `Cache::iter`, keeping the keys: each is a key of the entries; in a cache
/// that never drops entries, every key of them comes out, once.
#[verifier::external_body]
fn cache_keys(cache: &Cache<String, String>) -> (r: Vec<String>)
    ensures
        forall|i: int| 0 <= i < r@.len() ==> cache_entries(*cache).contains_key(#[trigger] r@[i]@),
        never_drops(cache_settings(*cache)) ==> r@.map_values(|s: String| s@).no_duplicates(),
        never_drops(cache_settings(*cache)) ==> forall|k: Seq<char>| #[trigger] cache_entries(*cache).contains_key(k)
            ==> r@.map_values(|s: String| s@).contains(k),
{
    cache.iter().map(|(k, _)| k.as_ref().clone()).collect()
}

/// Whether `Regex::new` accepts the text as a regular expression.
pub uninterp spec fn regex_valid(pattern: Seq<char>) -> bool;

/// Whether the regular expression `pattern` matches somewhere in `text` (`Regex::is_match`).
pub uninterp spec fn regex_matches(pattern: Seq<char>, text: Seq<char>) -> bool;

/// `Regex::new(pattern).is_ok()`.
#[verifier::external_body]
fn regex_compiles(pattern: &str) -> (r: bool)
    ensures
        r == regex_valid(pattern@),
{
    Regex::new(pattern).is_ok()
}

/// `Regex::is_match` of the regular expression `pattern` on `text`.
#[verifier::external_body]
fn regex_is_match(pattern: &str, text: &str) -> (r: bool)
    requires
        regex_valid(pattern@),
    ensures
        r == regex_matches(pattern@, text@),
{
    Regex::new(pattern).map(|re| re.is_match(text)).unwrap_or(false)
}

/// The eviction policy a cache is built with.
#[derive(Debug, Clone, Copy, PartialEq, Eq, Structural)]
pub enum EvictionKind {
    Lru,
    TinyLfu,
    Default,
}

/// The policy an upper-cased policy name selects: `LRU`, `LFU` or `TINY_LFU`, and
/// the default policy for any other name.
pub open spec fn eviction_kind_named(upper: Seq<char>) -> EvictionKind {
    if upper == "LRU"@ {
        EvictionKind::Lru
    } else if upper == "LFU"@ || upper == "TINY_LFU"@ {
        EvictionKind::TinyLfu
    } else {
        EvictionKind::Default
    }
}

/// Whether a cache with these settings keeps every entry: it has neither a
/// maximum capacity nor a time to live.
pub open spec fn never_drops(settings: MemoryCacheSettings) -> bool {
    settings.max_capacity is None && settings.ttl_millis is None
}

/// The settings a memory cache is built with, taken from the properties.
#[derive(Debug, Clone, Copy)]
pub struct MemoryCacheSettings {
    pub initial_capacity: Option<usize>,
    pub max_capacity: Option<u64>,
    pub ttl_millis: Option<u64>,
    pub eviction: Option<EvictionKind>,
}

impl EvictionKind {
    /// The policy an upper-cased name selects.
    pub fn from_uppercased(upper: &str) -> (r: EvictionKind)
        ensures
            r == eviction_kind_named(upper@),
    {
        if str_eq(upper, "LRU") {
            EvictionKind::Lru
        } else if str_eq(upper, "LFU") || str_eq(upper, "TINY_LFU") {
            EvictionKind::TinyLfu
        } else {
            EvictionKind::Default
        }
    }

    /// The policy a name selects, ignoring letter case.
    pub fn from_name(name: &str) -> (r: EvictionKind)
        ensures
            r == eviction_kind_named(unicode_uppercase(name@)),
    {
        let upper = str_to_uppercase(name);
        EvictionKind::from_uppercased(upper.as_str())
    }
}

impl MemoryCacheSettings {
    /// The settings the properties ask for: each given property is used, and a given
    /// eviction policy name is read without regard to letter case.
    pub fn from_properties(config: &MemoryProperties) -> (r: MemoryCacheSettings)
        ensures
            r.initial_capacity == match config.initial_capacity {
                Some(c) => Some(c as usize),
                None => None::<usize>,
            },
            r.max_capacity == config.max_capacity,
            r.ttl_millis == config.ttl,
            r.eviction == match config.eviction_policy {
                Some(name) => Some(eviction_kind_named(unicode_uppercase(name@))),
                None => None::<EvictionKind>,
            },
            r == memory_settings_of(*config),
    {
        MemoryCacheSettings {
            initial_capacity: match config.initial_capacity {
                Some(c) => Some(c as usize),
                None => None,
            },
            max_capacity: config.max_capacity,
            ttl_millis: config.ttl,
            eviction: match &config.eviction_policy {
                Some(name) => Some(EvictionKind::from_name(name.as_str())),
                None => None,
            },
        }
    }
}

/// The settings the properties ask for (see `MemoryCacheSettings::from_properties`).
pub open spec fn memory_settings_of(config: MemoryProperties) -> MemoryCacheSettings {
    MemoryCacheSettings {
        initial_capacity: match config.initial_capacity {
            Some(c) => Some(c as usize),
            None => None::<usize>,
        },
        max_capacity: config.max_capacity,
        ttl_millis: config.ttl,
        eviction: match config.eviction_policy {
            Some(name) => Some(eviction_kind_named(unicode_uppercase(name@))),
            None => None::<EvictionKind>,
        },
    }
}

/// What is stored for the key: its text, or nothing.
pub open spec fn stored_read(entries: Map<Seq<char>, Seq<char>>, key: Seq<char>) -> Option<Seq<char>> {
    if entries.contains_key(key) {
        Some(entries[key])
    } else {
        None
    }
}

/// A read of `key` that may miss but never returns another value than the stored one.
pub open spec fn may_read(entries: Map<Seq<char>, Seq<char>>, key: Seq<char>, read: Option<Seq<char>>) -> bool {
    match read {
        Some(v) => entries.contains_key(key) && entries[key] == v,
        None => true,
    }
}

/// The fields of a hash entry as stored: none when nothing is stored.
pub open spec fn hash_of(stored: Option<Seq<char>>) -> Map<Seq<char>, Seq<char>> {
    match stored {
        Some(t) => decoded_or_empty(t),
        None => Map::empty(),
    }
}

/// The value of a field of a stored hash entry.
pub open spec fn hash_field_spec(stored: Option<Seq<char>>, field: Option<Seq<char>>) -> Option<Seq<char>> {
    match (stored, field) {
        (Some(t), Some(f)) => if decoded_or_empty(t).contains_key(f) {
            Some(decoded_or_empty(t)[f])
        } else {
            None
        },
        _ => None,
    }
}

/// The text of a hash entry after `updates` are set on it.
pub open spec fn hset_text(stored: Option<Seq<char>>, updates: Seq<(String, String)>) -> Seq<char> {
    json_fields_encoded(fields_merged(hash_of(stored), updates))
}

/// The text of a hash entry after `field` is set where it is absent; none when present.
pub open spec fn hsetnx_text(stored: Option<Seq<char>>, field: Seq<char>, value: Seq<char>) -> Option<Seq<char>> {
    if hash_of(stored).contains_key(field) {
        None
    } else {
        Some(json_fields_encoded(hash_of(stored).insert(field, value)))
    }
}

/// The text of a stored hash entry after `field` is removed; none when nothing is stored.
pub open spec fn hdel_text(stored: Option<Seq<char>>, field: Seq<char>) -> Option<Seq<char>> {
    match stored {
        Some(t) => Some(json_fields_encoded(decoded_or_empty(t).remove(field))),
        None => None,
    }
}

/// The text stored after the bit at `offset` is set to `value`.
pub open spec fn set_bit_text(stored: Option<Seq<char>>, offset: nat, value: bool) -> Seq<char> {
    lossy_text(with_bit(stored_bytes(stored), offset, value))
}

/// Whether every key listed is a key of the entries (what a walk over the cache
/// may list: entries dropped meanwhile are not listed).
pub open spec fn keys_listed(entries: Map<Seq<char>, Seq<char>>, listed: Seq<String>) -> bool {
    forall|i: int| 0 <= i < listed.len() ==> entries.contains_key(#[trigger] listed[i]@)
}

/// Whether `ks` lists, once each, every key of the entries that the regular
/// expression `pattern` matches.
pub open spec fn all_matching_keys(entries: Map<Seq<char>, Seq<char>>, pattern: Seq<char>, ks: Seq<String>) -> bool {
    &&& ks.map_values(|s: String| s@).no_duplicates()
    &&& forall|k: Seq<char>| #[trigger] entries.contains_key(k) && regex_matches(pattern, k)
        ==> ks.map_values(|s: String| s@).contains(k)
}

/// Filtering a list that has no element twice gives a list that has none twice.
proof fn lemma_filter_no_duplicates(s: Seq<Seq<char>>, pred: spec_fn(Seq<char>) -> bool)
    requires
        s.no_duplicates(),
    ensures
        s.filter(pred).no_duplicates(),
    decreases s.len(),
{
    reveal_with_fuel(Seq::<_>::filter, 1);
    if s.len() > 0 {
        let rest = s.drop_last();
        assert(rest.no_duplicates()) by {
            assert forall|i: int, j: int| 0 <= i < rest.len() && 0 <= j < rest.len() && i != j implies rest[i] != rest[j] by {
                assert(rest[i] == s[i] && rest[j] == s[j]);
            }
        }
        lemma_filter_no_duplicates(rest, pred);
        if pred(s.last()) {
            let f = rest.filter(pred);
            if f.contains(s.last()) {
                rest.lemma_filter_contains_rev(pred, s.last());
                let i = choose|i: int| 0 <= i < rest.len() && rest[i] == s.last();
                assert(rest[i] == s[i]);
                assert(s[s.len() - 1] == s.last());
            }
            assert(s.filter(pred) == f.push(s.last()));
        } else {
            assert(s.filter(pred) == rest.filter(pred));
        }
    }
}

/// Whether `names` lists, once each, exactly the names of the map.
pub open spec fn names_cover(names: Seq<String>, m: Map<Seq<char>, Seq<char>>) -> bool {
    &&& forall|i: int| 0 <= i < names.len() ==> m.contains_key(#[trigger] names[i]@)
    &&& forall|k: Seq<char>| #[trigger] m.contains_key(k) ==> exists|i: int| 0 <= i < names.len() && names[i]@ == k
    &&& forall|i: int, j: int| 0 <= i < j < names.len() ==> (#[trigger] names[i])@ != (#[trigger] names[j])@
}

/// The string cache kept in memory.
pub struct StringMemoryCache {
    cache: Cache<String, String>,
}

impl StringMemoryCache {
    /// The entries of the cache.
    pub closed spec fn entries(&self) -> Map<Seq<char>, Seq<char>> {
        cache_entries(self.cache)
    }

    /// The limits and policy the cache was built with.
    pub closed spec fn settings(&self) -> MemoryCacheSettings {
        cache_settings(self.cache)
    }

    /// A cache built with the settings the properties ask for.
    pub fn new(config: &MemoryProperties) -> (r: StringMemoryCache)
        requires
            config.ttl matches Some(t) ==> t <= MAX_TTL_MILLIS,
        ensures
            r.entries() == Map::<Seq<char>, Seq<char>>::empty(),
            r.settings() == memory_settings_of(*config),
    {
        let settings = MemoryCacheSettings::from_properties(config);
        let mut builder = moka_builder();
        if let Some(initial_capacity) = settings.initial_capacity {
            builder = builder_initial_capacity(builder, initial_capacity);
        }
        if let Some(max_capacity) = settings.max_capacity {
            builder = builder_max_capacity(builder, max_capacity);
        }
        if let Some(ttl) = settings.ttl_millis {
            builder = builder_time_to_live(builder, ttl);
        }
        if let Some(kind) = settings.eviction {
            builder = builder_eviction_policy(builder, kind);
        }
        StringMemoryCache { cache: builder_build(builder) }
    }

    /// The value stored for the key; nothing when the key is absent or was dropped.
    pub fn get(&self, key: String) -> (r: Result<Option<String>, CacheError>)
        ensures
            r matches Ok(o) && may_read(self.entries(), key@, text_view(o)),
            never_drops(self.settings()) && self.entries().contains_key(key@) ==> (r matches Ok(Some(v))
                && v@ == self.entries()[key@]),
    {
        Ok(cache_get(&self.cache, &key))
    }

    /// Stores the value for the key. `milliseconds` is not used: entries live as
    /// long as the cache's own time to live.
    pub fn set(&mut self, key: String, value: String, milliseconds: Option<i32>) -> (r: Result<bool, CacheError>)
        ensures
            final(self).settings() == old(self).settings(),
            r matches Ok(b) && b,
            final(self).entries() == old(self).entries().insert(key@, value@),
    {
        cache_insert(&mut self.cache, key, value);
        Ok(true)
    }

    /// Stores the value for the key unless the key holds a value; whether it stored.
    /// Without a value nothing is stored.
    pub fn set_nx(&mut self, key: String, value: Option<String>) -> (r: Result<bool, CacheError>)
        ensures
            final(self).settings() == old(self).settings(),
            r matches Ok(b) && (b ==> (value matches Some(v)
                && final(self).entries() == old(self).entries().insert(key@, v@))),
            r matches Ok(b) && (!b ==> final(self).entries() == old(self).entries()),
            value is None ==> r == Ok::<bool, CacheError>(false),
            value is Some && !old(self).entries().contains_key(key@) ==> r == Ok::<bool, CacheError>(true),
            value is Some && never_drops(old(self).settings()) && old(self).entries().contains_key(key@)
                ==> r == Ok::<bool, CacheError>(false) && final(self).entries() == old(self).entries(),
    {
        match value {
            Some(v) => {
                if cache_contains_key(&self.cache, &key) {
                    Ok(false)
                } else {
                    cache_insert(&mut self.cache, key, v);
                    Ok(true)
                }
            },
            None => Ok(false),
        }
    }

    /// The keys among `candidates` that the regular expression `pattern` matches, in order.
    pub fn filter_matching(pattern: &str, candidates: &Vec<String>) -> (r: Vec<String>)
        requires
            regex_valid(pattern@),
        ensures
            r@.map_values(|s: String| s@) == candidates@.map_values(|s: String| s@).filter(
                |k: Seq<char>| regex_matches(pattern@, k),
            ),
    {
        let ghost pred = |k: Seq<char>| regex_matches(pattern@, k);
        let ghost views = candidates@.map_values(|s: String| s@);
        let mut out: Vec<String> = Vec::new();
        let mut i: usize = 0;
        while i < candidates.len()
            invariant
                i <= candidates@.len(),
                regex_valid(pattern@),
                views == candidates@.map_values(|s: String| s@),
                pred == (|k: Seq<char>| regex_matches(pattern@, k)),
                out@.map_values(|s: String| s@) == views.take(i as int).filter(pred),
            decreases candidates@.len() - i,
        {
            proof {
                reveal_with_fuel(Seq::<_>::filter, 1);
                assert(views.take(i + 1).drop_last() =~= views.take(i as int));
            }
            if regex_is_match(pattern, candidates[i].as_str()) {
                let ghost before = out@;
                out.push(candidates[i].clone());
                proof {
                    assert(out@.map_values(|s: String| s@) =~= before.map_values(|s: String| s@).push(views[i as int]));
                }
            }
            i = i + 1;
        }
        proof {
            assert(views.take(candidates@.len() as int) =~= views);
        }
        out
    }

    /// The keys of the cache that the regular expression `pattern` matches somewhere.
    pub fn keys(&self, pattern_str: String) -> (r: Result<Vec<String>, CacheError>)
        requires
            regex_valid(pattern_str@),
        ensures
            r matches Ok(ks) && forall|i: int| 0 <= i < ks@.len() ==> self.entries().contains_key(#[trigger] ks@[i]@)
                && regex_matches(pattern_str@, ks@[i]@),
            r matches Ok(ks) && exists|listed: Seq<String>| #[trigger] keys_listed(self.entries(), listed)
                && ks@.map_values(|s: String| s@) == listed.map_values(|s: String| s@).filter(
                |k: Seq<char>| regex_matches(pattern_str@, k),
            ),
            never_drops(self.settings()) ==> (r matches Ok(ks) && all_matching_keys(self.entries(), pattern_str@, ks@)),
    {
        let all = cache_keys(&self.cache);
        let matched = StringMemoryCache::filter_matching(pattern_str.as_str(), &all);
        proof {
            assert forall|i: int| 0 <= i < matched@.len() implies self.entries().contains_key(#[trigger] matched@[i]@)
                && regex_matches(pattern_str@, matched@[i]@) by {
                let views = all@.map_values(|s: String| s@);
                let pred = |k: Seq<char>| regex_matches(pattern_str@, k);
                assert(matched@.map_values(|s: String| s@)[i] == matched@[i]@);
                let f = views.filter(pred);
                assert(f[i] == matched@[i]@);
                views.lemma_filter_pred(pred, i);
                assert(f.contains(f[i]));
                views.lemma_filter_contains_rev(pred, f[i]);
                let j = choose|j: int| 0 <= j < views.len() && views[j] == f[i];
                assert(views[j] == all@[j]@);
            }
        }
        assert(keys_listed(self.entries(), all@));
        proof {
            if never_drops(self.settings()) {
                let views = all@.map_values(|s: String| s@);
                let pred = |k: Seq<char>| regex_matches(pattern_str@, k);
                lemma_filter_no_duplicates(views, pred);
                assert forall|k: Seq<char>| #[trigger] self.entries().contains_key(k) && regex_matches(pattern_str@, k)
                    implies matched@.map_values(|s: String| s@).contains(k) by {
                    assert(views.contains(k));
                    let j = choose|j: int| 0 <= j < views.len() && views[j] == k;
                    views.lemma_filter_contains(pred, j);
                }
            }
        }
        Ok(matched)
    }

    /// Like `keys`, but a pattern that is not a regular expression is refused with an error.
    pub fn try_keys(&self, pattern_str: String) -> (r: Result<Vec<String>, CacheError>)
        ensures
            r is Ok <==> regex_valid(pattern_str@),
            r matches Ok(ks) ==> forall|i: int| 0 <= i < ks@.len() ==> self.entries().contains_key(#[trigger] ks@[i]@)
                && regex_matches(pattern_str@, ks@[i]@),
            never_drops(self.settings()) ==> (r matches Ok(ks) ==> all_matching_keys(self.entries(), pattern_str@, ks@)),
    {
        if regex_compiles(pattern_str.as_str()) {
            self.keys(pattern_str)
        } else {
            Err(CacheError { message: String::from_str("invalid key pattern") })
        }
    }

    /// The value of a field of a stored hash entry (see `hash_field_spec`).
    pub fn hash_field(stored: Option<String>, field: Option<String>) -> (r: Option<String>)
        ensures
            text_view(r) == hash_field_spec(text_view(stored), text_view(field)),
    {
        match stored {
            Some(text) => {
                let fields = decode_or_empty(text.as_str());
                match field {
                    Some(f) => fields_get(&fields, f.as_str()),
                    None => None,
                }
            },
            None => None,
        }
    }

    /// The value of a field of the hash entry at the key; nothing when there is no
    /// field given, no entry read, or no such field.
    pub fn hget(&self, key: String, field: Option<String>) -> (r: Result<Option<String>, CacheError>)
        ensures
            r matches Ok(o) && (text_view(o) == hash_field_spec(None, text_view(field))
                || (self.entries().contains_key(key@) && text_view(o) == hash_field_spec(
                Some(self.entries()[key@]),
                text_view(field),
            ))),
            never_drops(self.settings()) ==> (r matches Ok(o) && text_view(o) == hash_field_spec(stored_read(self.entries(), key@), text_view(field))),
    {
        let stored = cache_get(&self.cache, &key);
        Ok(StringMemoryCache::hash_field(stored, field))
    }

    /// All fields of a stored hash entry; nothing when nothing is stored.
    pub fn hash_fields(stored: Option<String>) -> (r: Option<Vec<(String, String)>>)
        ensures
            stored is None <==> r is None,
            r matches Some(v) ==> distinct_fields(v@) && field_map(v@) == hash_of(text_view(stored)),
    {
        match stored {
            Some(text) => Some(decode_or_empty(text.as_str())),
            None => None,
        }
    }

    /// All fields of the hash entry at the key; nothing when no entry is read.
    pub fn hget_all(&self, key: String) -> (r: Result<Option<Vec<(String, String)>>, CacheError>)
        ensures
            r matches Ok(o) && (o matches Some(v) ==> self.entries().contains_key(key@) && distinct_fields(v@)
                && field_map(v@) == decoded_or_empty(self.entries()[key@])),
            never_drops(self.settings()) ==> (r matches Ok(o) && (o is Some <==> self.entries().contains_key(key@))
                && (o matches Some(v) ==> field_map(v@) == hash_of(stored_read(self.entries(), key@)))),
    {
        let stored = cache_get(&self.cache, &key);
        Ok(StringMemoryCache::hash_fields(stored))
    }

    /// The text of a stored hash entry after the updates are set on it, in order.
    pub fn hash_with_fields(stored: Option<String>, updates: Vec<(String, String)>) -> (r: String)
        ensures
            r@ == hset_text(text_view(stored), updates@),
            json_fields_decoded(r@) == Some(fields_merged(hash_of(text_view(stored)), updates@)),
    {
        let mut fields = match stored {
            Some(text) => decode_or_empty(text.as_str()),
            None => Vec::new(),
        };
        fields_insert_all(&mut fields, &updates);
        json_encode_fields(&fields)
    }

    /// Sets the given fields of the hash entry at the key, keeping its other fields
    /// (when its entry is read); whether anything was given.
    pub fn hset(&mut self, key: String, field_values: Option<Vec<(String, String)>>) -> (r: Result<bool, CacheError>)
        ensures
            final(self).settings() == old(self).settings(),
            field_values is None ==> r == Ok::<bool, CacheError>(false) && final(self).entries() == old(self).entries(),
            field_values matches Some(fvs) ==> r == Ok::<bool, CacheError>(true) && exists|read: Option<Seq<char>>|
                #[trigger] may_read(old(self).entries(), key@, read)
                && final(self).entries() == old(self).entries().insert(key@, hset_text(read, fvs@))
                && json_fields_decoded(hset_text(read, fvs@)) == Some(fields_merged(hash_of(read), fvs@)),
            never_drops(old(self).settings()) ==> (field_values matches Some(fvs) ==> final(self).entries()
                == old(self).entries().insert(key@, hset_text(stored_read(old(self).entries(), key@), fvs@))
                && json_fields_decoded(hset_text(stored_read(old(self).entries(), key@), fvs@)) == Some(fields_merged(hash_of(stored_read(old(self).entries(), key@)), fvs@))),
    {
        match field_values {
            Some(fv) => {
                let ghost old_entries = self.entries();
                let stored = cache_get(&self.cache, &key);
                let ghost read = text_view(stored);
                assert(may_read(old_entries, key@, read));
                let text = StringMemoryCache::hash_with_fields(stored, fv);
                cache_insert(&mut self.cache, key, text);
                Ok(true)
            },
            None => Ok(false),
        }
    }

    /// The text of a stored hash entry after `field` is set to `value`, or nothing
    /// when the entry already has the field.
    pub fn hash_with_new_field(stored: Option<String>, field: String, value: String) -> (r: Option<String>)
        ensures
            text_view(r) == hsetnx_text(text_view(stored), field@, value@),
            r matches Some(t) ==> json_fields_decoded(t@) == Some(hash_of(text_view(stored)).insert(field@, value@)),
    {
        let mut fields = match stored {
            Some(text) => decode_or_empty(text.as_str()),
            None => Vec::new(),
        };
        match fields_get(&fields, field.as_str()) {
            Some(_) => None,
            None => {
                fields_insert(&mut fields, field, value);
                Some(json_encode_fields(&fields))
            },
        }
    }

    /// Sets `field` of the hash entry at the key unless the entry (as read) has it;
    /// whether it was set.
    pub fn hset_nx(&mut self, key: String, field: String, value: String) -> (r: Result<bool, CacheError>)
        ensures
            final(self).settings() == old(self).settings(),
            r matches Ok(b) && exists|read: Option<Seq<char>>| #[trigger] may_read(old(self).entries(), key@, read)
                && if b {
                (hsetnx_text(read, field@, value@) matches Some(t) && final(self).entries()
                    == old(self).entries().insert(key@, t)
                    && json_fields_decoded(t) == Some(hash_of(read).insert(field@, value@)))
            } else {
                hsetnx_text(read, field@, value@) is None && final(self).entries() == old(self).entries()
            },
            never_drops(old(self).settings()) ==> (r matches Ok(b) && (b <==> hsetnx_text(stored_read(old(self).entries(), key@), field@, value@) is Some)
                && (hsetnx_text(stored_read(old(self).entries(), key@), field@, value@) matches Some(t) ==> final(self).entries() == old(self).entries().insert(key@, t)
                    && json_fields_decoded(t) == Some(hash_of(stored_read(old(self).entries(), key@)).insert(field@, value@)))
                && (hsetnx_text(stored_read(old(self).entries(), key@), field@, value@) is None ==> final(self).entries() == old(self).entries())),
    {
        let ghost old_entries = self.entries();
        let stored = cache_get(&self.cache, &key);
        let ghost read = text_view(stored);
        assert(may_read(old_entries, key@, read));
        match StringMemoryCache::hash_with_new_field(stored, field, value) {
            Some(text) => {
                cache_insert(&mut self.cache, key, text);
                Ok(true)
            },
            None => Ok(false),
        }
    }

    /// The field names of a stored hash entry; none when nothing is stored.
    pub fn hash_field_names(stored: Option<String>) -> (r: Vec<String>)
        ensures
            names_cover(r@, hash_of(text_view(stored))),
    {
        let fields = match stored {
            Some(text) => decode_or_empty(text.as_str()),
            None => Vec::new(),
        };
        let names = fields_names(&fields);
        proof {
            let m = hash_of(text_view(stored));
            assert forall|i: int| 0 <= i < names@.len() implies m.contains_key(#[trigger] names@[i]@) by {
                crate::cache::fields::lemma_field_map_value(fields@, i);
            }
            assert forall|k: Seq<char>| #[trigger] m.contains_key(k) implies exists|i: int|
                0 <= i < names@.len() && names@[i]@ == k by {
                crate::cache::fields::lemma_field_map_dom(fields@, k);
                let i = choose|i: int| 0 <= i < fields@.len() && (#[trigger] fields@[i]).0@ == k;
                assert(names@[i]@ == k);
            }
        }
        names
    }

    /// The field names of the hash entry at the key; none when no entry is read.
    pub fn hkeys(&self, key: String) -> (r: Result<Vec<String>, CacheError>)
        ensures
            r matches Ok(names) && (names_cover(names@, Map::empty()) || (self.entries().contains_key(key@)
                && names_cover(names@, decoded_or_empty(self.entries()[key@])))),
            never_drops(self.settings()) ==> (r matches Ok(names) && names_cover(names@, hash_of(stored_read(self.entries(), key@)))),
    {
        let stored = cache_get(&self.cache, &key);
        Ok(StringMemoryCache::hash_field_names(stored))
    }

    /// The text of a stored hash entry without `field`; nothing when nothing is stored.
    pub fn hash_without_field(stored: Option<String>, field: String) -> (r: Option<String>)
        ensures
            text_view(r) == hdel_text(text_view(stored), field@),
            r matches Some(t) ==> json_fields_decoded(t@) == Some(hash_of(text_view(stored)).remove(field@)),
    {
        match stored {
            Some(text) => {
                let mut fields = decode_or_empty(text.as_str());
                let _had = fields_remove(&mut fields, field.as_str());
                Some(json_encode_fields(&fields))
            },
            None => None,
        }
    }

    /// Removes `field` from the hash entry at the key; whether an entry was read.
    pub fn hdel(&mut self, key: String, field: String) -> (r: Result<bool, CacheError>)
        ensures
            final(self).settings() == old(self).settings(),
            r matches Ok(b) && if b {
                old(self).entries().contains_key(key@) && (hdel_text(Some(old(self).entries()[key@]), field@) matches Some(t)
                    && final(self).entries() == old(self).entries().insert(key@, t)
                    && json_fields_decoded(t) == Some(decoded_or_empty(old(self).entries()[key@]).remove(field@)))
            } else {
                final(self).entries() == old(self).entries()
            },
            never_drops(old(self).settings()) ==> r == Ok::<bool, CacheError>(old(self).entries().contains_key(key@)),
    {
        let stored = cache_get(&self.cache, &key);
        match StringMemoryCache::hash_without_field(stored, field) {
            Some(text) => {
                cache_insert(&mut self.cache, key, text);
                Ok(true)
            },
            None => Ok(false),
        }
    }

    /// The bit at `offset` of the text at the key; false when no entry is read or the
    /// text is too short.
    pub fn get_bit(&self, key: String, offset: u64) -> (r: Result<bool, CacheError>)
        ensures
            r matches Ok(b) && (b == bit_at(stored_bytes(None), offset as nat) || (self.entries().contains_key(key@)
                && b == bit_at(stored_bytes(Some(self.entries()[key@])), offset as nat))),
            never_drops(self.settings()) ==> r == Ok::<bool, CacheError>(bit_at(stored_bytes(stored_read(self.entries(), key@)), offset as nat)),
    {
        match cache_get(&self.cache, &key) {
            Some(value) => Ok(bit_of_text(value.as_str(), offset)),
            None => Ok(false),
        }
    }

    /// Sets the bit at `offset` of the text at the key (an unread entry counts as
    /// empty) and stores the result; the bit as it was.
    pub fn set_bit(&mut self, key: String, offset: u64, value: bool) -> (r: Result<bool, CacheError>)
        requires
            offset / 8 < usize::MAX,
        ensures
            final(self).settings() == old(self).settings(),
            r matches Ok(b) && exists|read: Option<Seq<char>>| #[trigger] may_read(old(self).entries(), key@, read)
                && b == bit_at(stored_bytes(read), offset as nat)
                && final(self).entries() == old(self).entries().insert(key@, set_bit_text(read, offset as nat, value)),
            never_drops(old(self).settings()) ==> (r == Ok::<bool, CacheError>(bit_at(stored_bytes(stored_read(old(self).entries(), key@)), offset as nat))
                && final(self).entries() == old(self).entries().insert(key@, set_bit_text(stored_read(old(self).entries(), key@), offset as nat, value))),
    {
        let ghost old_entries = self.entries();
        let stored = cache_get(&self.cache, &key);
        let ghost read = text_view(stored);
        assert(may_read(old_entries, key@, read));
        let (text, was) = text_with_bit(stored, offset, value);
        cache_insert(&mut self.cache, key, text);
        Ok(was)
    }

    /// Discards the key's value.
    pub fn del(&mut self, key: String) -> (r: Result<bool, CacheError>)
        ensures
            final(self).settings() == old(self).settings(),
            r matches Ok(b) && b,
            final(self).entries() == old(self).entries().remove(key@),
    {
        cache_invalidate(&mut self.cache, &key);
        Ok(true)
    }
}

impl ICache<String> for StringMemoryCache {
    fn get(&self, key: String) -> (r: Result<Option<String>, CacheError>)
        ensures
            r matches Ok(o) && may_read(self.entries(), key@, text_view(o)),
            never_drops(self.settings()) && self.entries().contains_key(key@) ==> (r matches Ok(Some(v))
                && v@ == self.entries()[key@]),
    {
        StringMemoryCache::get(self, key)
    }

    fn set(&mut self, key: String, value: String, expire: Option<i32>) -> (r: Result<bool, CacheError>)
        ensures
            final(self).settings() == old(self).settings(),
            r matches Ok(b) && b,
            final(self).entries() == old(self).entries().insert(key@, value@),
    {
        StringMemoryCache::set(self, key, value, expire)
    }

    fn delete(&mut self, key: String) -> (r: Result<bool, CacheError>)
        ensures
            final(self).settings() == old(self).settings(),
            r matches Ok(b) && b,
            final(self).entries() == old(self).entries().remove(key@),
    {
        StringMemoryCache::del(self, key)
    }
}

/// Law: a read of a key just written finds the value written, or misses (the
/// entry may have been dropped); it never finds another value.
pub proof fn law_read_after_write(entries: Map<Seq<char>, Seq<char>>, key: Seq<char>, value: Seq<char>, read: Option<Seq<char>>)
    requires
        may_read(entries.insert(key, value), key, read),
    ensures
        read is None || read == Some(value),
{
}

/// Law: writing a key changes what no other key reads.
pub proof fn law_write_keeps_other_keys(entries: Map<Seq<char>, Seq<char>>, key: Seq<char>, value: Seq<char>, other: Seq<char>, read: Option<Seq<char>>)
    requires
        other != key,
    ensures
        may_read(entries.insert(key, value), other, read) == may_read(entries, other, read),
{
}

/// Law: once a key is discarded, no read of it finds a value.
pub proof fn law_read_after_delete(entries: Map<Seq<char>, Seq<char>>, key: Seq<char>, read: Option<Seq<char>>)
    requires
        may_read(entries.remove(key), key, read),
    ensures
        read is None,
{
}

/// Setting pairs on a map gives the value of the last pair that names a field,
/// and keeps the value of a field that no pair names.
proof fn lemma_fields_merged_at(m: Map<Seq<char>, Seq<char>>, updates: Seq<(String, String)>, field: Seq<char>)
    ensures
        (forall|i: int| 0 <= i < updates.len() ==> (#[trigger] updates[i]).0@ != field) ==> (
            fields_merged(m, updates).contains_key(field) == m.contains_key(field)
            && (m.contains_key(field) ==> fields_merged(m, updates)[field] == m[field])),
        updates.len() > 0 && updates.last().0@ == field ==> (fields_merged(m, updates).contains_key(field)
            && fields_merged(m, updates)[field] == updates.last().1@),
    decreases updates.len(),
{
    if updates.len() > 0 {
        lemma_fields_merged_at(m, updates.drop_last(), field);
        if forall|i: int| 0 <= i < updates.len() ==> (#[trigger] updates[i]).0@ != field {
            assert forall|i: int| 0 <= i < updates.drop_last().len() implies (#[trigger] updates.drop_last()[i]).0@ != field by {
                assert(updates.drop_last()[i] == updates[i]);
            }
            assert(updates.last() == updates[updates.len() - 1]);
        }
    }
}

/// Law: after a hash entry is set from `updates` (its text `text` decoding to the
/// fields read, with the updates set in order), a field reads back the value of
/// the last pair that names it.
pub proof fn law_hash_field_after_hset(before: Option<Seq<char>>, updates: Seq<(String, String)>, text: Seq<char>, field: Seq<char>, value: Seq<char>)
    requires
        json_fields_decoded(text) == Some(fields_merged(hash_of(before), updates)),
        updates.len() > 0,
        updates.last().0@ == field,
        updates.last().1@ == value,
    ensures
        hash_field_spec(Some(text), Some(field)) == Some(value),
{
    lemma_fields_merged_at(hash_of(before), updates, field);
}

/// Law: setting a hash entry from `updates` keeps every field that no pair names.
pub proof fn law_hash_field_kept_by_hset(before: Option<Seq<char>>, updates: Seq<(String, String)>, text: Seq<char>, field: Seq<char>)
    requires
        json_fields_decoded(text) == Some(fields_merged(hash_of(before), updates)),
        forall|i: int| 0 <= i < updates.len() ==> (#[trigger] updates[i]).0@ != field,
    ensures
        hash_field_spec(Some(text), Some(field)) == hash_field_spec(before, Some(field)),
{
    lemma_fields_merged_at(hash_of(before), updates, field);
}

/// Law: a field set where it was absent reads back the value set.
pub proof fn law_hash_field_after_hset_nx(read: Option<Seq<char>>, text: Seq<char>, field: Seq<char>, value: Seq<char>)
    requires
        json_fields_decoded(text) == Some(hash_of(read).insert(field, value)),
    ensures
        hash_field_spec(Some(text), Some(field)) == Some(value),
{
}

/// Law: a field removed from a hash entry reads as absent.
pub proof fn law_hash_field_gone_after_hdel(stored: Seq<char>, text: Seq<char>, field: Seq<char>)
    requires
        json_fields_decoded(text) == Some(decoded_or_empty(stored).remove(field)),
    ensures
        hash_field_spec(Some(text), Some(field)) is None,
{
}

/// Law: a bit set in a stored text reads back as set, when the bytes with the bit
/// set are valid UTF-8. (Otherwise the text keeps U+FFFD in place of the invalid
/// bytes, and the bit read back is that of the replacement.)
pub proof fn law_bit_reads_back(read: Option<Seq<char>>, offset: nat, value: bool)
    requires
        valid_utf8(with_bit(stored_bytes(read), offset, value)),
    ensures
        bit_at(stored_bytes(Some(set_bit_text(read, offset, value))), offset) == value,
{
    let w = with_bit(stored_bytes(read), offset, value);
    decode_utf8_encode_utf8(w);
    law_bit_written_is_read(stored_bytes(read), offset, value);
}

/// Law: on the entries, a field set by `hset` reads back through `hget` as the
/// value of the last pair that names it.
pub proof fn law_hget_after_hset(entries: Map<Seq<char>, Seq<char>>, key: Seq<char>, updates: Seq<(String, String)>, field: Seq<char>, value: Seq<char>)
    requires
        json_fields_decoded(hset_text(stored_read(entries, key), updates))
            == Some(fields_merged(hash_of(stored_read(entries, key)), updates)),
        updates.len() > 0,
        updates.last().0@ == field,
        updates.last().1@ == value,
    ensures
        hash_field_spec(
            stored_read(entries.insert(key, hset_text(stored_read(entries, key), updates)), key),
            Some(field),
        ) == Some(value),
{
    law_hash_field_after_hset(stored_read(entries, key), updates, hset_text(stored_read(entries, key), updates), field, value);
}

/// Law: on the entries, a bit set by `set_bit` reads back through `get_bit`,
/// when the bytes with the bit set are valid UTF-8.
pub proof fn law_get_bit_after_set_bit(entries: Map<Seq<char>, Seq<char>>, key: Seq<char>, offset: nat, value: bool)
    requires
        valid_utf8(with_bit(stored_bytes(stored_read(entries, key)), offset, value)),
    ensures
        bit_at(stored_bytes(stored_read(entries.insert(key, set_bit_text(stored_read(entries, key), offset, value)), key)), offset)
            == value,
{
    law_bit_reads_back(stored_read(entries, key), offset, value);
}

} // verus!
