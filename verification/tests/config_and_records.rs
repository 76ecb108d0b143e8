use mywebnote::cache::memory::{EvictionKind, MemoryCacheSettings, StringMemoryCache};
use mywebnote::cache::{CacheContainer, CacheRef};
use mywebnote::config::config::{ApiConfig as ServeConfig, DbType as ServeDbType};
use mywebnote::config::config_api::{ApiConfig, ApiProperties, CacheProvider, DbType, MemoryProperties};
use mywebnote::mgmt::apm::logging::{LogLevel, LogLevelError, LogMode, LogModeError};
use mywebnote::mgmt::health::{aggregate, healthz_report, HealthCheckResult, MongoChecker, RedisClusterChecker, SQLiteChecker};
use mywebnote::models::users::{QueryUserRequest, SaveUserRequest};
use mywebnote::models::BaseBean;
use mywebnote::route;
use mywebnote::routes::{Checked, ValidatedJson, ValidatedQuery};
use mywebnote::store::{sqlite_db_url, RepoRef, Repository, RepositoryContainer, RepositoryError};
use mywebnote::text::{i64_to_decimal, strip_prefix, u64_to_decimal};

#[test]
fn default_properties() {
    let p = ApiProperties::default();
    assert_eq!(p.service_name, "the-revezone-api");
    assert_eq!(p.server.bind, "0.0.0.0:8888");
    assert_eq!(p.server.mgmt_bind, "0.0.0.0:11700");
    assert_eq!(p.server.thread_max_pool, 4);
    assert_eq!(p.server.cors.hosts, vec!["*".to_string()]);
    assert_eq!(p.db.db_type, DbType::Sqlite);
    assert_eq!(p.cache.provider, CacheProvider::Memory);
    assert_eq!(p.cache.memory.ttl, Some(3600));
    assert_eq!(p.auth.oidc.scope.as_deref(), Some("openid profile email"));
    assert_eq!(p.auth.github.oauth2().enabled, Some(false));
}

#[test]
fn validate_accepts_unchanged() {
    let mut p = ApiProperties::default();
    p.service_name = "other".to_string();
    let v = p.validate().ok().unwrap();
    assert_eq!(v.service_name, "other");
    let c = ServeConfig::default();
    assert_eq!(c.service.db.db_type, ServeDbType::Sqlite);
    assert!(c.validate().is_ok());
}

#[test]
fn anonymous_paths_compile_or_are_refused() {
    let mut p = ApiProperties::default();
    p.auth.anonymous_paths = Some(vec!["/docs/*".to_string(), "/health".to_string()]);
    let config = ApiConfig::try_new(p).unwrap();
    assert!(config.is_anonymous_path("/docs/index.html"));
    assert!(config.is_anonymous_path("/health"));
    assert!(!config.is_anonymous_path("/api/users"));
    let mut bad = ApiProperties::default();
    bad.auth.anonymous_paths = Some(vec!["a[".to_string()]);
    assert!(ApiConfig::try_new(bad).is_none());
    let none = ApiConfig::try_new(ApiProperties::default()).unwrap();
    assert!(!none.is_anonymous_path("/docs/index.html"));
}

#[test]
fn log_modes_parse_and_display() {
    assert_eq!(LogMode::from_str(" Human ").ok(), Some(LogMode::Human));
    assert_eq!(LogMode::from_str("JSON").ok(), Some(LogMode::Json));
    let e: LogModeError = LogMode::from_str("xml").err().unwrap();
    assert_eq!(e.0, "xml");
    assert_eq!(e.message(), "Unsupported log mode level `xml`. Supported values are `HUMAN` and `JSON`.");
    for m in [LogMode::Human, LogMode::Json] {
        assert_eq!(LogMode::from_str(&m.to_display_string()).ok(), Some(m));
    }
    assert_eq!(LogMode::default(), LogMode::Human);
}

#[test]
fn log_levels_parse_and_display() {
    assert_eq!(LogLevel::from_str("warn").ok(), Some(LogLevel::Warn));
    assert_eq!(LogLevel::from_str("\tTRACE\n").ok(), Some(LogLevel::Trace));
    let e: LogLevelError = LogLevel::from_str("loud").err().unwrap();
    assert_eq!(e.given_log_level, "loud");
    assert_eq!(e.message(), "Log level 'loud' is invalid. Accepted values are 'OFF', 'ERROR', 'WARN', 'INFO', 'DEBUG', and 'TRACE'.\n");
    for l in [LogLevel::Off, LogLevel::Error, LogLevel::Warn, LogLevel::Info, LogLevel::Debug, LogLevel::Trace] {
        assert_eq!(LogLevel::from_str(&l.to_display_string()).ok(), Some(l));
    }
    assert_eq!(LogLevel::default(), LogLevel::Info);
    assert_eq!(" Debug ".parse::<LogLevel>().ok(), Some(LogLevel::Debug));
    assert_eq!("json".parse::<LogMode>().ok(), Some(LogMode::Json));
}

fn detail(r: &HealthCheckResult, name: &str) -> Option<String> {
    r.details.iter().find(|(k, _)| k == name).map(|(_, v)| v.clone())
}

#[test]
fn health_report_is_up_with_details() {
    let r = healthz_report(DbType::Sqlite, CacheProvider::Redis, false, false, true);
    assert_eq!(r.status, "UP");
    assert_eq!(detail(&r, "sqlite").as_deref(), Some("DOWN"));
    assert_eq!(detail(&r, "mongo").as_deref(), Some("UP"));
    assert_eq!(detail(&r, "redis-cluster").as_deref(), Some("UP"));
    assert_eq!(r.details.len(), 3);
}

#[test]
fn health_checks_and_aggregate() {
    let c = SQLiteChecker::new().check(DbType::Mongo, false);
    assert_eq!(c.status, "sqlite");
    assert_eq!(detail(&c, "sqlite").as_deref(), Some("UP"));
    assert!(MongoChecker::new().needs_probe(DbType::Mongo));
    assert!(!RedisClusterChecker::new().needs_probe(CacheProvider::Memory));
    let down = HealthCheckResult { status: "DOWN".to_string(), details: vec![("x".to_string(), "1".to_string())] };
    let later = HealthCheckResult { status: "x".to_string(), details: vec![("x".to_string(), "2".to_string())] };
    let r = aggregate(&vec![down, later]);
    assert_eq!(r.status, "DOWN");
    assert_eq!(detail(&r, "x").as_deref(), Some("2"));
}

#[test]
fn base_bean_defaults() {
    let b = BaseBean::new_default();
    assert_eq!(b.id, Some(1001));
    assert_eq!(b.create_by.as_deref(), Some("unknown"));
    assert_eq!(b.del_flag, Some(0));
    assert!(b.create_time.is_some() && b.update_time.is_some());
    let mut b = BaseBean::new(Some("a".to_string()), None);
    b.pre_update(Some("z".to_string()));
    assert_eq!(b.update_by.as_deref(), Some("z"));
    assert_eq!(b.create_by.as_deref(), Some("a"));
}

#[test]
fn records_carry_their_fields() {
    let q = QueryUserRequest { name: Some("n".to_string()), email: None };
    assert_eq!(q.name.as_deref(), Some("n"));
    let s = SaveUserRequest { name: "n".to_string(), email: "e".to_string(), password: "p".to_string() };
    assert_eq!(s.password, "p");
}

#[test]
fn validated_extractors() {
    match ValidatedJson::<u8>::from_checked(Checked::ParseFailed("eof".to_string())) {
        Err(j) => {
            assert_eq!(j.status, 400);
            assert_eq!(j.message, "Json parsing error: eof");
        }
        Ok(_) => panic!("expected a refusal"),
    }
    match ValidatedQuery::<u8>::from_checked(Checked::Invalid("name".to_string())) {
        Err(j) => assert_eq!(j.message, "Validation error: name"),
        Ok(_) => panic!("expected a refusal"),
    }
    match route::ValidatedQuery::<u8>::from_checked(Checked::ParseFailed("q".to_string())) {
        Err(j) => assert_eq!(j.message, "Query parsing error: q"),
        Ok(_) => panic!("expected a refusal"),
    }
    assert!(matches!(route::ValidatedJson::from_checked(Checked::Valid(3u8)), Ok(route::ValidatedJson(3))));
    assert!(matches!(ValidatedJson::from_checked(Checked::Valid(3u8)), Ok(ValidatedJson(3))));
}

struct Fixed(i32);

impl Repository<i32> for Fixed {
    fn select_all(&self) -> Result<Vec<i32>, RepositoryError> {
        Ok(vec![self.0])
    }
    fn select_by_id(&self, _id: i32) -> Result<i32, RepositoryError> {
        Ok(self.0)
    }
    fn insert(&self, param: i32) -> Result<i32, RepositoryError> {
        Ok(param)
    }
    fn update(&self, param: i32) -> Result<i32, RepositoryError> {
        Ok(param)
    }
    fn delete_all(&self, _id: i32) -> Result<i32, RepositoryError> {
        Ok(0)
    }
    fn delete_by_id(&self, _id: i32) -> Result<i32, RepositoryError> {
        Ok(0)
    }
}

#[test]
fn repository_container_picks_configured_database() {
    let mut c = RepositoryContainer::new(Fixed(1), Fixed(2));
    let mut config = ServeConfig::default();
    match c.repo(&config) {
        RepoRef::Sqlite(r) => assert_eq!(r.select_all().ok(), Some(vec![1])),
        RepoRef::Mongo(_) => panic!("expected SQLite"),
    }
    config.service.db.db_type = ServeDbType::Mongo;
    match c.repo(&config) {
        RepoRef::Mongo(r) => assert_eq!(r.select_by_id(0).ok(), Some(2)),
        RepoRef::Sqlite(_) => panic!("expected MongoDB"),
    }
}

#[test]
fn cache_container_picks_configured_cache() {
    let memory = StringMemoryCache::new(&MemoryProperties::default());
    let c = CacheContainer::new(memory, 7u8);
    let mut p = ApiProperties::default();
    assert!(matches!(c.cache(&p), CacheRef::Memory(_)));
    p.cache.provider = CacheProvider::Redis;
    assert!(matches!(c.cache(&p), CacheRef::Redis(&7)));
}

#[test]
fn memory_settings_from_properties() {
    let p = MemoryProperties {
        initial_capacity: Some(10),
        max_capacity: None,
        ttl: Some(5),
        eviction_policy: Some("tiny_lfu".to_string()),
    };
    let s = MemoryCacheSettings::from_properties(&p);
    assert_eq!(s.initial_capacity, Some(10));
    assert_eq!(s.eviction, Some(EvictionKind::TinyLfu));
    assert_eq!(EvictionKind::from_name("lru"), EvictionKind::Lru);
    assert_eq!(EvictionKind::from_name("other"), EvictionKind::Default);
}

#[test]
fn decimal_numerals() {
    assert_eq!(u64_to_decimal(0), "0");
    assert_eq!(u64_to_decimal(1234567890), "1234567890");
    assert_eq!(i64_to_decimal(-42), "-42");
    assert_eq!(i64_to_decimal(i64::MIN), i64::MIN.to_string());
    assert_eq!(i64_to_decimal(i64::MAX), i64::MAX.to_string());
}

#[test]
fn prefixes_are_stripped() {
    assert_eq!(strip_prefix("Bearer x", "Bearer "), Some("x"));
    assert_eq!(strip_prefix("Bear", "Bearer "), None);
    assert_eq!(strip_prefix("héllo", "hé"), Some("llo"));
}

#[test]
fn sqlite_database_address() {
    assert_eq!(sqlite_db_url("/tmp/revezone_db"), "sqlite:///tmp/revezone_db/sqlite.db");
}

#[test]
fn trimming_removes_outer_white_space_only() {
    use_trim();
}

fn use_trim() {
    assert_eq!(mywebnote::text::str_trim("  a b\t\n"), "a b");
    assert_eq!(mywebnote::text::str_trim("\u{3000}x\u{a0}"), "x");
    assert_eq!(mywebnote::text::str_trim("   "), "");
    assert_eq!(mywebnote::text::str_trim(""), "");
}
