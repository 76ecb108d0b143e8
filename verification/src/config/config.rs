//! The first-generation configuration layout (`server`, `logging`, `service`).
use vstd::prelude::*;
use vstd::string::*;

verus! {

/// The whole configuration: server, logging and service settings.
#[derive(Debug, Clone)]
pub struct ApiConfig {
    pub server: ServerConfig,
    pub logging: LoggingConfig,
    pub service: ServiceConfig,
}

#[derive(Debug, Clone)]
pub struct ServerConfig {
    pub bind: String,
    pub mgmt_bind: String,
    pub thread_max_pool: u32,
    pub cors: CorsConfig,
    pub auths: AuthConfig,
}

#[derive(Debug, Clone)]
pub struct CorsConfig {
    pub hosts: Vec<String>,
    pub headers: Vec<String>,
    pub methods: Vec<String>,
}

#[derive(Debug, Clone)]
pub struct AuthConfig {
    pub oidc: OidcConfig,
    pub github: GithubConfig,
}

#[derive(Debug, Clone)]
pub struct OidcConfig {
    pub endpoint: Option<String>,
    pub app_id: Option<String>,
    pub app_secret: Option<String>,
}

#[derive(Debug, Clone)]
pub struct GithubConfig {
    pub endpoint: Option<String>,
    pub app_id: Option<String>,
    pub app_secret: Option<String>,
}

#[derive(Debug, Clone)]
pub struct LoggingConfig {
    pub file: String,
    pub pattern: String,
}

#[derive(Debug, Clone)]
pub struct ServiceConfig {
    pub db: DbConfig,
}

#[derive(Debug, Clone)]
pub struct DbConfig {
    pub db_type: DbType,
    pub sqlite: SqliteConfig,
    pub mongo: MongoConfig,
}

/// Which database stores the data.
#[derive(Debug, PartialEq, Eq, Clone, Copy, Structural)]
pub enum DbType {
    Sqlite,
    Mongo,
}

#[derive(Debug, Clone)]
pub struct SqliteConfig {
    pub dir: String,
}

#[derive(Debug, Clone)]
pub struct MongoConfig {
    pub url: String,
}

/// A configuration error. Validation accepts every configuration, so none is produced yet.
#[derive(Debug, Clone)]
pub struct ConfigError {
    pub message: String,
}

/// Whether a list of strings holds exactly the given texts, in order.
pub open spec fn strings_are(v: Seq<String>, texts: Seq<Seq<char>>) -> bool {
    &&& v.len() == texts.len()
    &&& forall|i: int| 0 <= i < v.len() ==> #[trigger] v[i]@ == texts[i]
}

/// A list holding the one given text.
pub fn single_string(s: &str) -> (r: Vec<String>)
    ensures
        strings_are(r@, seq![s@]),
{
    let mut v: Vec<String> = Vec::new();
    v.push(String::from_str(s));
    v
}

pub open spec fn is_default_server_config(c: ServerConfig) -> bool {
    &&& c.bind@ == "0.0.0.0:8888"@
    &&& c.mgmt_bind@ == "0.0.0.0:11700"@
    &&& c.thread_max_pool == 4
    &&& is_default_cors_config(c.cors)
    &&& is_default_auth_config(c.auths)
}

pub open spec fn is_default_cors_config(c: CorsConfig) -> bool {
    &&& strings_are(c.hosts@, seq!["*"@])
    &&& strings_are(c.headers@, seq!["*"@])
    &&& strings_are(c.methods@, seq!["*"@])
}

pub open spec fn is_default_auth_config(c: AuthConfig) -> bool {
    &&& c.oidc.endpoint is None && c.oidc.app_id is None && c.oidc.app_secret is None
    &&& c.github.endpoint is None && c.github.app_id is None && c.github.app_secret is None
}

pub open spec fn is_default_logging_config(c: LoggingConfig) -> bool {
    c.file@ == "info"@ && c.pattern@ == "pretty"@
}

pub open spec fn is_default_db_config(c: DbConfig) -> bool {
    &&& c.db_type == DbType::Sqlite
    &&& c.sqlite.dir@ == "/tmp/revezone_db"@
    &&& c.mongo.url@ == "mongodb://localhost:27017"@
}

impl ApiConfig {
    /// The built-in configuration.
    pub fn default() -> (r: ApiConfig)
        ensures
            is_default_server_config(r.server),
            is_default_logging_config(r.logging),
            is_default_db_config(r.service.db),
    {
        ApiConfig {
            server: ServerConfig::default(),
            logging: LoggingConfig::default(),
            service: ServiceConfig::default(),
        }
    }

    /// Checks a configuration; every configuration is accepted unchanged.
    pub fn validate(self) -> (r: Result<ApiConfig, ConfigError>)
        ensures
            r == Ok::<ApiConfig, ConfigError>(self),
    {
        Ok(self)
    }
}

impl Default for ServerConfig {
    fn default() -> (r: Self)
        ensures
            is_default_server_config(r),
    {
        proof {
            reveal_strlit("0.0.0.0:8888");
            reveal_strlit("0.0.0.0:11700");
        }
        ServerConfig {
            bind: String::from_str("0.0.0.0:8888"),
            mgmt_bind: String::from_str("0.0.0.0:11700"),
            thread_max_pool: 4,
            cors: CorsConfig::default(),
            auths: AuthConfig::default(),
        }
    }
}

impl Default for CorsConfig {
    fn default() -> (r: Self)
        ensures
            is_default_cors_config(r),
    {
        CorsConfig { hosts: single_string("*"), headers: single_string("*"), methods: single_string("*") }
    }
}

impl Default for AuthConfig {
    fn default() -> (r: Self)
        ensures
            is_default_auth_config(r),
    {
        AuthConfig { oidc: OidcConfig::default(), github: GithubConfig::default() }
    }
}

impl Default for OidcConfig {
    fn default() -> (r: Self)
        ensures
            r.endpoint is None && r.app_id is None && r.app_secret is None,
    {
        OidcConfig { endpoint: None, app_id: None, app_secret: None }
    }
}

impl Default for GithubConfig {
    fn default() -> (r: Self)
        ensures
            r.endpoint is None && r.app_id is None && r.app_secret is None,
    {
        GithubConfig { endpoint: None, app_id: None, app_secret: None }
    }
}

impl Default for LoggingConfig {
    fn default() -> (r: Self)
        ensures
            is_default_logging_config(r),
    {
        LoggingConfig { file: String::from_str("info"), pattern: String::from_str("pretty") }
    }
}

impl Default for ServiceConfig {
    fn default() -> (r: Self)
        ensures
            is_default_db_config(r.db),
    {
        ServiceConfig { db: DbConfig::default() }
    }
}

impl Default for DbConfig {
    fn default() -> (r: Self)
        ensures
            is_default_db_config(r),
    {
        DbConfig { db_type: DbType::Sqlite, sqlite: SqliteConfig::default(), mongo: MongoConfig::default() }
    }
}

impl Default for SqliteConfig {
    fn default() -> (r: Self)
        ensures
            r.dir@ == "/tmp/revezone_db"@,
    {
        SqliteConfig { dir: String::from_str("/tmp/revezone_db") }
    }
}

impl Default for MongoConfig {
    fn default() -> (r: Self)
        ensures
            r.url@ == "mongodb://localhost:27017"@,
    {
        MongoConfig { url: String::from_str("mongodb://localhost:27017") }
    }
}

} // verus!
