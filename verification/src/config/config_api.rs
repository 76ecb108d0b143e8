//! The current configuration layout, its defaults, and the configuration in use,
//! which adds the matcher for the paths that need no authentication.
use std::sync::Arc;
use globset::{Glob, GlobSet, GlobSetBuilder};
use vstd::prelude::*;
use vstd::string::*;
use crate::config::config::{strings_are, single_string, ConfigError};
use crate::text::opt_text_is;

verus! {

#[derive(Debug, Clone)]
pub struct ApiProperties {
    pub service_name: String,
    pub server: ServerProperties,
    pub logging: LoggingProperties,
    pub db: DbProperties,
    pub cache: CacheProperties,
    pub auth: AuthProperties,
    pub swagger: SwaggerProperties,
    pub monitoring: MonitoringProperties,
}

#[derive(Debug, Clone)]
pub struct ServerProperties {
    pub bind: String,
    pub mgmt_bind: String,
    pub thread_max_pool: u32,
    pub cors: CorsProperties,
}

#[derive(Debug, Clone)]
pub struct CorsProperties {
    pub hosts: Vec<String>,
    pub headers: Vec<String>,
    pub methods: Vec<String>,
}

#[derive(Debug, Clone)]
pub struct LoggingProperties {
    pub file: String,
    pub pattern: String,
}

#[derive(Debug, Clone)]
pub struct DbProperties {
    pub db_type: DbType,
    pub sqlite: SqliteProperties,
    pub mongo: MongoProperties,
}

/// Which database stores the data.
#[derive(Debug, PartialEq, Eq, Clone, Copy, Structural)]
pub enum DbType {
    Sqlite,
    Mongo,
}

#[derive(Debug, Clone)]
pub struct SqliteProperties {
    pub dir: String,
}

#[derive(Debug, Clone)]
pub struct MongoProperties {
    pub url: String,
}

#[derive(Debug, Clone)]
pub struct CacheProperties {
    pub provider: CacheProvider,
    pub memory: MemoryProperties,
    pub redis: RedisProperties,
}

/// Which cache serves the string cache.
#[derive(Debug, PartialEq, Eq, Clone, Copy, Structural)]
pub enum CacheProvider {
    Memory,
    Redis,
}

#[derive(Debug, Clone)]
pub struct MemoryProperties {
    pub initial_capacity: Option<u32>,
    pub max_capacity: Option<u64>,
    /// Time to live of an entry, in milliseconds.
    pub ttl: Option<u64>,
    pub eviction_policy: Option<String>,
}

#[derive(Debug, Clone)]
pub struct RedisProperties {
    pub nodes: Vec<String>,
    pub username: Option<String>,
    pub password: Option<String>,
    pub connection_timeout: Option<u64>,
    pub response_timeout: Option<u64>,
    pub retries: Option<u32>,
    pub max_retry_wait: Option<u64>,
    pub min_retry_wait: Option<u64>,
    pub read_from_replicas: Option<bool>,
}

#[derive(Debug, Clone)]
pub struct AuthProperties {
    pub anonymous_paths: Option<Vec<String>>,
    pub jwt_validity_ak: Option<i64>,
    pub jwt_validity_rk: Option<i64>,
    pub jwt_secret: Option<String>,
    pub oidc: OidcProperties,
    pub github: GithubProperties,
}

#[derive(Debug, Clone)]
pub struct OidcProperties {
    pub enabled: Option<bool>,
    pub client_id: Option<String>,
    pub client_secret: Option<String>,
    pub issue_url: Option<String>,
    pub redirect_url: Option<String>,
    pub scope: Option<String>,
}

#[derive(Debug, Clone)]
pub struct OAuth2Properties {
    pub enabled: Option<bool>,
    pub client_id: Option<String>,
    pub client_secret: Option<String>,
    pub auth_url: Option<String>,
    pub token_url: Option<String>,
    pub redirect_url: Option<String>,
    pub scope: Option<String>,
    pub user_info_url: Option<String>,
}

/// The GitHub OAuth2 settings: the generic OAuth2 settings under another name.
#[derive(Debug, Clone)]
pub struct GithubProperties(pub OAuth2Properties);

#[derive(Debug, Clone)]
pub struct SwaggerProperties {
    pub enabled: bool,
    pub swagger_ui_path: String,
    pub swagger_openapi_url: String,
}

#[derive(Debug, Clone)]
pub struct MonitoringProperties {
    pub enabled: bool,
    pub otel: OtelProperties,
}

#[derive(Debug, Clone)]
pub struct OtelProperties {
    pub endpoint: String,
    pub protocol: String,
    pub timeout: Option<u64>,
}

pub open spec fn is_default_server(c: ServerProperties) -> bool {
    &&& c.bind@ == "0.0.0.0:8888"@
    &&& c.mgmt_bind@ == "0.0.0.0:11700"@
    &&& c.thread_max_pool == 4
    &&& is_default_cors(c.cors)
}

pub open spec fn is_default_cors(c: CorsProperties) -> bool {
    &&& strings_are(c.hosts@, seq!["*"@])
    &&& strings_are(c.headers@, seq!["*"@])
    &&& strings_are(c.methods@, seq!["*"@])
}

pub open spec fn is_default_logging(c: LoggingProperties) -> bool {
    c.file@ == "info"@ && c.pattern@ == "pretty"@
}

pub open spec fn is_default_db(c: DbProperties) -> bool {
    &&& c.db_type == DbType::Sqlite
    &&& c.sqlite.dir@ == "/tmp/revezone_db"@
    &&& c.mongo.url@ == "mongodb://localhost:27017"@
}

pub open spec fn is_default_memory(c: MemoryProperties) -> bool {
    &&& c.initial_capacity == Some(32u32)
    &&& c.max_capacity == Some(65535u64)
    &&& c.ttl == Some(3600u64)
    &&& opt_text_is(c.eviction_policy, "lru"@)
}

pub open spec fn is_default_redis(c: RedisProperties) -> bool {
    &&& strings_are(c.nodes@, seq!["redis://127.0.0.1:6379"@])
    &&& c.username is None
    &&& c.password is None
    &&& c.connection_timeout == Some(3000u64)
    &&& c.response_timeout == Some(6000u64)
    &&& c.retries == Some(1u32)
    &&& c.max_retry_wait == Some(65536u64)
    &&& c.min_retry_wait == Some(1280u64)
    &&& c.read_from_replicas == Some(false)
}

pub open spec fn is_default_cache(c: CacheProperties) -> bool {
    &&& c.provider == CacheProvider::Memory
    &&& is_default_memory(c.memory)
    &&& is_default_redis(c.redis)
}

pub open spec fn is_default_oidc(c: OidcProperties) -> bool {
    &&& c.enabled == Some(false)
    &&& c.client_id is None
    &&& c.client_secret is None
    &&& c.issue_url is None
    &&& c.redirect_url is None
    &&& opt_text_is(c.scope, "openid profile email"@)
}

pub open spec fn is_default_oauth2(c: OAuth2Properties) -> bool {
    &&& c.enabled == Some(false)
    &&& c.client_id is None
    &&& c.client_secret is None
    &&& c.auth_url is None
    &&& c.token_url is None
    &&& c.redirect_url is None
    &&& opt_text_is(c.scope, "openid profile user:email user:follow read:user read:project public_repo"@)
    &&& c.user_info_url is None
}

pub open spec fn is_default_auth(c: AuthProperties) -> bool {
    &&& c.anonymous_paths is None
    &&& c.jwt_validity_ak == Some(3600_000i64)
    &&& c.jwt_validity_rk == Some(86400_000i64)
    &&& opt_text_is(c.jwt_secret, "changeit"@)
    &&& is_default_oidc(c.oidc)
    &&& is_default_oauth2(c.github.0)
}

pub open spec fn is_default_swagger(c: SwaggerProperties) -> bool {
    &&& c.enabled
    &&& c.swagger_ui_path@ == "/swagger-ui"@
    &&& c.swagger_openapi_url@ == "/api-docs/openapi.json"@
}

pub open spec fn is_default_otel(c: OtelProperties) -> bool {
    &&& c.endpoint@ == "http://localhost:4317"@
    &&& c.protocol@ == "grpc"@
    &&& c.timeout == Some(10_000u64)
}

pub open spec fn is_default_monitoring(c: MonitoringProperties) -> bool {
    c.enabled && is_default_otel(c.otel)
}

pub open spec fn is_default_properties(c: ApiProperties) -> bool {
    &&& c.service_name@ == "the-revezone-api"@
    &&& is_default_server(c.server)
    &&& is_default_logging(c.logging)
    &&& is_default_db(c.db)
    &&& is_default_cache(c.cache)
    &&& is_default_auth(c.auth)
    &&& is_default_swagger(c.swagger)
    &&& is_default_monitoring(c.monitoring)
}

fn some_string(s: &str) -> (r: Option<String>)
    ensures
        opt_text_is(r, s@),
{
    Some(String::from_str(s))
}

impl ApiProperties {
    /// The built-in configuration.
    pub fn default() -> (r: ApiProperties)
        ensures
            is_default_properties(r),
    {
        ApiProperties {
            service_name: String::from_str("the-revezone-api"),
            server: ServerProperties::default(),
            logging: LoggingProperties::default(),
            db: DbProperties::default(),
            cache: CacheProperties::default(),
            auth: AuthProperties::default(),
            swagger: SwaggerProperties::default(),
            monitoring: MonitoringProperties::default(),
        }
    }

    /// Checks a configuration; every configuration is accepted unchanged.
    pub fn validate(self) -> (r: Result<ApiProperties, ConfigError>)
        ensures
            r == Ok::<ApiProperties, ConfigError>(self),
    {
        Ok(self)
    }
}

impl Default for ServerProperties {
    fn default() -> (r: Self)
        ensures
            is_default_server(r),
    {
        ServerProperties {
            bind: String::from_str("0.0.0.0:8888"),
            mgmt_bind: String::from_str("0.0.0.0:11700"),
            thread_max_pool: 4,
            cors: CorsProperties::default(),
        }
    }
}

impl Default for CorsProperties {
    fn default() -> (r: Self)
        ensures
            is_default_cors(r),
    {
        CorsProperties { hosts: single_string("*"), headers: single_string("*"), methods: single_string("*") }
    }
}

impl Default for LoggingProperties {
    fn default() -> (r: Self)
        ensures
            is_default_logging(r),
    {
        LoggingProperties { file: String::from_str("info"), pattern: String::from_str("pretty") }
    }
}

impl Default for DbProperties {
    fn default() -> (r: Self)
        ensures
            is_default_db(r),
    {
        DbProperties { db_type: DbType::Sqlite, sqlite: SqliteProperties::default(), mongo: MongoProperties::default() }
    }
}

impl Default for SqliteProperties {
    fn default() -> (r: Self)
        ensures
            r.dir@ == "/tmp/revezone_db"@,
    {
        SqliteProperties { dir: String::from_str("/tmp/revezone_db") }
    }
}

impl Default for MongoProperties {
    fn default() -> (r: Self)
        ensures
            r.url@ == "mongodb://localhost:27017"@,
    {
        MongoProperties { url: String::from_str("mongodb://localhost:27017") }
    }
}

impl Default for OidcProperties {
    fn default() -> (r: Self)
        ensures
            is_default_oidc(r),
    {
        OidcProperties {
            enabled: Some(false),
            client_id: None,
            client_secret: None,
            issue_url: None,
            redirect_url: None,
            scope: some_string("openid profile email"),
        }
    }
}

impl Default for OAuth2Properties {
    fn default() -> (r: Self)
        ensures
            is_default_oauth2(r),
    {
        OAuth2Properties {
            enabled: Some(false),
            client_id: None,
            client_secret: None,
            auth_url: None,
            token_url: None,
            redirect_url: None,
            scope: some_string("openid profile user:email user:follow read:user read:project public_repo"),
            user_info_url: None,
        }
    }
}

impl Default for GithubProperties {
    fn default() -> (r: Self)
        ensures
            is_default_oauth2(r.0),
    {
        GithubProperties(OAuth2Properties::default())
    }
}

impl GithubProperties {
    /// The OAuth2 settings these GitHub settings are.
    pub fn oauth2(&self) -> (r: &OAuth2Properties)
        ensures
            *r == self.0,
    {
        &self.0
    }
}

impl Default for CacheProperties {
    fn default() -> (r: Self)
        ensures
            is_default_cache(r),
    {
        CacheProperties {
            provider: CacheProvider::Memory,
            memory: MemoryProperties::default(),
            redis: RedisProperties::default(),
        }
    }
}

impl Default for MemoryProperties {
    fn default() -> (r: Self)
        ensures
            is_default_memory(r),
    {
        MemoryProperties {
            initial_capacity: Some(32),
            max_capacity: Some(65535),
            ttl: Some(3600),
            eviction_policy: some_string("lru"),
        }
    }
}

impl Default for RedisProperties {
    fn default() -> (r: Self)
        ensures
            is_default_redis(r),
    {
        RedisProperties {
            nodes: single_string("redis://127.0.0.1:6379"),
            username: None,
            password: None,
            connection_timeout: Some(3000),
            response_timeout: Some(6000),
            retries: Some(1),
            max_retry_wait: Some(65536),
            min_retry_wait: Some(1280),
            read_from_replicas: Some(false),
        }
    }
}

impl Default for AuthProperties {
    fn default() -> (r: Self)
        ensures
            is_default_auth(r),
    {
        AuthProperties {
            anonymous_paths: None,
            jwt_validity_ak: Some(3600_000),
            jwt_validity_rk: Some(86400_000),
            jwt_secret: some_string("changeit"),
            oidc: OidcProperties::default(),
            github: GithubProperties::default(),
        }
    }
}

impl Default for SwaggerProperties {
    fn default() -> (r: Self)
        ensures
            is_default_swagger(r),
    {
        SwaggerProperties {
            enabled: true,
            swagger_ui_path: String::from_str("/swagger-ui"),
            swagger_openapi_url: String::from_str("/api-docs/openapi.json"),
        }
    }
}

impl Default for MonitoringProperties {
    fn default() -> (r: Self)
        ensures
            is_default_monitoring(r),
    {
        MonitoringProperties { enabled: true, otel: OtelProperties::default() }
    }
}

impl Default for OtelProperties {
    fn default() -> (r: Self)
        ensures
            is_default_otel(r),
    {
        OtelProperties {
            endpoint: String::from_str("http://localhost:4317"),
            protocol: String::from_str("grpc"),
            timeout: Some(10_000),
        }
    }
}


#[verifier::external_type_specification]
#[verifier::external_body]
pub struct ExGlobSet(GlobSet);

#[verifier::external_type_specification]
#[verifier::external_body]
pub struct ExGlobSetBuilder(GlobSetBuilder);

/// Whether `Glob::new` accepts the text as a glob.
pub uninterp spec fn glob_valid(pattern: Seq<char>) -> bool;

/// Whether the glob written as `pattern` matches `path` (`GlobMatcher::is_match`).
pub uninterp spec fn glob_matches(pattern: Seq<char>, path: Seq<char>) -> bool;

/// Whether `GlobSetBuilder::build` succeeds for the globs written as `patterns`.
pub uninterp spec fn glob_set_builds(patterns: Seq<Seq<char>>) -> bool;

/// The texts of the globs a builder holds, in the order they were added.
pub uninterp spec fn glob_builder_patterns(builder: GlobSetBuilder) -> Seq<Seq<char>>;

/// The texts of the globs a built set holds.
pub uninterp spec fn glob_set_patterns(set: GlobSet) -> Seq<Seq<char>>;

/// Whether one of the globs written as `patterns` matches `path`.
pub open spec fn any_glob_matches(patterns: Seq<Seq<char>>, path: Seq<char>) -> bool {
    exists|i: int| 0 <= i < patterns.len() && glob_matches(#[trigger] patterns[i], path)
}

/// The texts of a list of strings.
pub open spec fn texts_of(v: Seq<String>) -> Seq<Seq<char>> {
    v.map_values(|s: String| s@)
}

/// `Glob::new(pattern).is_ok()`: whether the text is a glob.
#[verifier::external_body]
fn glob_compiles(pattern: &str) -> (r: bool)
    ensures
        r == glob_valid(pattern@),
{
    Glob::new(pattern).is_ok()
}

/// `GlobSetBuilder::new`: a builder that holds no glob.
#[verifier::external_body]
fn glob_builder_new() -> (r: GlobSetBuilder)
    ensures
        glob_builder_patterns(r) == Seq::<Seq<char>>::empty(),
{
    GlobSetBuilder::new()
}

/// `GlobSetBuilder::add` of the glob `Glob::new(pattern)`; the builder appends it.
#[verifier::external_body]
fn glob_builder_add(builder: &mut GlobSetBuilder, pattern: &str)
    requires
        glob_valid(pattern@),
    ensures
        glob_builder_patterns(*final(builder)) == glob_builder_patterns(*old(builder)).push(pattern@),
{
    builder.add(Glob::new(pattern).unwrap());
}

/// `GlobSetBuilder::build`: a set of the builder's globs, or the error it reports.
#[verifier::external_body]
fn glob_builder_build(builder: &GlobSetBuilder) -> (r: Result<GlobSet, globset::Error>)
    ensures
        r is Ok <==> glob_set_builds(glob_builder_patterns(*builder)),
        r matches Ok(set) ==> glob_set_patterns(set) == glob_builder_patterns(*builder),
{
    builder.build()
}

/// `GlobSet::is_match`: whether any glob of the set matches the path.
#[verifier::external_body]
fn glob_set_is_match(set: &GlobSet, path: &str) -> (r: bool)
    ensures
        r == (exists|i: int| 0 <= i < glob_set_patterns(*set).len() && glob_matches(#[trigger] glob_set_patterns(*set)[i], path@)),
{
    set.is_match(path)
}

#[verifier::external_type_specification]
#[verifier::external_body]
pub struct ExGlobError(globset::Error);

/// The configuration in use: the properties, with the anonymous paths compiled into
/// a glob set.
pub struct ApiConfig {
    pub inner: ApiProperties,
    pub auth_anonymous_glob_matcher: Option<GlobSet>,
}

/// Whether every anonymous path is a glob and the globs build into a set.
pub open spec fn anonymous_paths_usable(config: ApiProperties) -> bool {
    config.auth.anonymous_paths matches Some(paths) ==> {
        &&& forall|i: int| 0 <= i < paths@.len() ==> glob_valid(#[trigger] paths@[i]@)
        &&& glob_set_builds(texts_of(paths@))
    }
}

impl ApiConfig {
    /// Compiles the anonymous paths of `paths` into a builder, in order.
    fn builder_of(paths: &Vec<String>) -> (r: GlobSetBuilder)
        requires
            forall|i: int| 0 <= i < paths@.len() ==> glob_valid(#[trigger] paths@[i]@),
        ensures
            glob_builder_patterns(r) == texts_of(paths@),
    {
        let mut builder = glob_builder_new();
        let mut i: usize = 0;
        while i < paths.len()
            invariant
                i <= paths@.len(),
                forall|j: int| 0 <= j < paths@.len() ==> glob_valid(#[trigger] paths@[j]@),
                glob_builder_patterns(builder) == texts_of(paths@.take(i as int)),
            decreases paths@.len() - i,
        {
            glob_builder_add(&mut builder, paths[i].as_str());
            assert(paths@.take(i + 1) =~= paths@.take(i as int).push(paths@[i as int]));
            assert(texts_of(paths@.take(i + 1)) =~= texts_of(paths@.take(i as int)).push(paths@[i as int]@));
            i = i + 1;
        }
        assert(paths@.take(paths@.len() as int) =~= paths@);
        builder
    }

    /// The configuration in use for `config`: the anonymous paths, if any, become a
    /// glob set. Each path must be a glob, and the globs must build.
    pub fn new(config: ApiProperties) -> (r: Arc<ApiConfig>)
        requires
            anonymous_paths_usable(config),
        ensures
            r.inner == config,
            match config.auth.anonymous_paths {
                Some(paths) => r.auth_anonymous_glob_matcher matches Some(set)
                    && glob_set_patterns(set) == texts_of(paths@),
                None => r.auth_anonymous_glob_matcher is None,
            },
    {
        let globset = match &config.auth.anonymous_paths {
            Some(paths) => {
                let builder = ApiConfig::builder_of(paths);
                match glob_builder_build(&builder) {
                    Ok(set) => Some(set),
                    Err(_) => None,
                }
            },
            None => None,
        };
        Arc::new(ApiConfig { inner: config, auth_anonymous_glob_matcher: globset })
    }

    /// Like `new`, but first checks that the anonymous paths compile; `None` when a
    /// path is not a glob or the globs do not build.
    pub fn try_new(config: ApiProperties) -> (r: Option<Arc<ApiConfig>>)
        ensures
            r is Some <==> anonymous_paths_usable(config),
            r matches Some(c) ==> c.inner == config && match config.auth.anonymous_paths {
                Some(paths) => c.auth_anonymous_glob_matcher matches Some(set)
                    && glob_set_patterns(set) == texts_of(paths@),
                None => c.auth_anonymous_glob_matcher is None,
            },
    {
        let usable = match &config.auth.anonymous_paths {
            Some(paths) => {
                let mut all_valid = true;
                let mut i: usize = 0;
                while i < paths.len()
                    invariant
                        i <= paths@.len(),
                        all_valid <==> forall|j: int| 0 <= j < i ==> glob_valid(#[trigger] paths@[j]@),
                    decreases paths@.len() - i,
                {
                    if !glob_compiles(paths[i].as_str()) {
                        all_valid = false;
                    }
                    i = i + 1;
                }
                if all_valid {
                    let builder = ApiConfig::builder_of(paths);
                    match glob_builder_build(&builder) {
                        Ok(_) => true,
                        Err(_) => false,
                    }
                } else {
                    false
                }
            },
            None => true,
        };
        if usable {
            Some(ApiConfig::new(config))
        } else {
            None
        }
    }

    /// Whether one of the configured anonymous globs matches the path.
    pub open spec fn anonymous(&self, path: Seq<char>) -> bool {
        self.auth_anonymous_glob_matcher matches Some(set) && any_glob_matches(glob_set_patterns(set), path)
    }

    /// Whether requests to `path` need no authentication: one of the configured
    /// anonymous globs matches it.
    pub fn is_anonymous_path(&self, path: &str) -> (r: bool)
        ensures
            r == self.anonymous(path@),
    {
        match &self.auth_anonymous_glob_matcher {
            Some(set) => glob_set_is_match(set, path),
            None => false,
        }
    }
}

impl ApiProperties {
    /// The configuration in use for these properties (see `ApiConfig::new`).
    pub fn to_use_config(self) -> (r: Arc<ApiConfig>)
        requires
            anonymous_paths_usable(self),
        ensures
            r.inner == self,
    {
        ApiConfig::new(self)
    }
}

} // verus!
