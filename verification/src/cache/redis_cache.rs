//! The string cache kept in a Redis cluster. Building the cluster client is done
//! here; the network round trips are made by the caller, which sends the commands
//! built here and reads the replies with the functions here.
use redis::cluster::{ClusterClient, ClusterClientBuilder};
use vstd::prelude::*;
use vstd::string::*;
use crate::cache::CacheError;
use crate::cache::bits::text_view;
use crate::config::config::strings_are;
use crate::config::config_api::{texts_of, RedisProperties};
use crate::text::{clone_opt_text, same_opt_text};

verus! {

#[verifier::external_type_specification]
#[verifier::external_body]
pub struct ExClusterClient(ClusterClient);

#[verifier::external_type_specification]
#[verifier::external_body]
pub struct ExClusterClientBuilder(ClusterClientBuilder);

#[verifier::external_type_specification]
#[verifier::external_body]
pub struct ExRedisError(redis::RedisError);

/// The settings a cluster client builder holds, as plain values: the initial
/// nodes, and each option as given (`None`: not given).
pub struct RedisClientOptions {
    pub nodes: Seq<Seq<char>>,
    pub username: Option<Seq<char>>,
    pub password: Option<Seq<char>>,
    pub connection_timeout: Option<u64>,
    pub response_timeout: Option<u64>,
    pub retries: Option<u32>,
    pub max_retry_wait: Option<u64>,
    pub min_retry_wait: Option<u64>,
    pub read_from_replicas: bool,
}

/// The settings a cluster client builder holds.
pub uninterp spec fn redis_builder_options(builder: ClusterClientBuilder) -> RedisClientOptions;

/// The settings a cluster client was built with.
pub uninterp spec fn redis_client_options(client: ClusterClient) -> RedisClientOptions;

/// Whether `ClusterClientBuilder::build` accepts the initial nodes with the user
/// name and password given (or not) to the builder: the nodes parse as Redis
/// addresses, there is at least one, none is a Unix socket, and they agree on
/// the credentials, protocol, database and TLS mode the builder does not fix.
pub uninterp spec fn redis_cluster_builds(nodes: Seq<Seq<char>>, username: Option<Seq<char>>, password: Option<Seq<char>>) -> bool;

/// The settings a client built from the properties holds: the nodes, each
/// option as given, and replica reads whenever `read-from-replicas` is given
/// (whatever its value).
pub open spec fn options_of(config: RedisProperties) -> RedisClientOptions {
    RedisClientOptions {
        nodes: texts_of(config.nodes@),
        username: text_view(config.username),
        password: text_view(config.password),
        connection_timeout: config.connection_timeout,
        response_timeout: config.response_timeout,
        retries: config.retries,
        max_retry_wait: config.max_retry_wait,
        min_retry_wait: config.min_retry_wait,
        read_from_replicas: config.read_from_replicas is Some,
    }
}

/// `ClusterClientBuilder::new` with the initial nodes: no option given yet.
#[verifier::external_body]
fn cluster_builder_new(nodes: &Vec<String>) -> (r: ClusterClientBuilder)
    ensures
        redis_builder_options(r) == (RedisClientOptions {
            nodes: texts_of(nodes@),
            username: None,
            password: None,
            connection_timeout: None,
            response_timeout: None,
            retries: None,
            max_retry_wait: None,
            min_retry_wait: None,
            read_from_replicas: false,
        }),
{
    ClusterClientBuilder::new(nodes.clone())
}

/// `ClusterClientBuilder::username`: sets the user name, keeping the rest.
#[verifier::external_body]
fn cluster_builder_username(builder: ClusterClientBuilder, username: &String) -> (r: ClusterClientBuilder)
    ensures
        redis_builder_options(r) == (RedisClientOptions { username: Some(username@), ..redis_builder_options(builder) }),
{
    builder.username(username)
}

/// `ClusterClientBuilder::password`: sets the password, keeping the rest.
#[verifier::external_body]
fn cluster_builder_password(builder: ClusterClientBuilder, password: &String) -> (r: ClusterClientBuilder)
    ensures
        redis_builder_options(r) == (RedisClientOptions { password: Some(password@), ..redis_builder_options(builder) }),
{
    builder.password(password)
}

/// `ClusterClientBuilder::connection_timeout` of `millis` milliseconds, keeping the rest.
#[verifier::external_body]
fn cluster_builder_connection_timeout(builder: ClusterClientBuilder, millis: u64) -> (r: ClusterClientBuilder)
    ensures
        redis_builder_options(r) == (RedisClientOptions { connection_timeout: Some(millis), ..redis_builder_options(builder) }),
{
    builder.connection_timeout(std::time::Duration::from_millis(millis))
}

/// `ClusterClientBuilder::response_timeout` of `millis` milliseconds, keeping the rest.
#[verifier::external_body]
fn cluster_builder_response_timeout(builder: ClusterClientBuilder, millis: u64) -> (r: ClusterClientBuilder)
    ensures
        redis_builder_options(r) == (RedisClientOptions { response_timeout: Some(millis), ..redis_builder_options(builder) }),
{
    builder.response_timeout(std::time::Duration::from_millis(millis))
}

/// `ClusterClientBuilder::retries`, keeping the rest.
#[verifier::external_body]
fn cluster_builder_retries(builder: ClusterClientBuilder, retries: u32) -> (r: ClusterClientBuilder)
    ensures
        redis_builder_options(r) == (RedisClientOptions { retries: Some(retries), ..redis_builder_options(builder) }),
{
    builder.retries(retries)
}

/// `ClusterClientBuilder::max_retry_wait`, keeping the rest.
#[verifier::external_body]
fn cluster_builder_max_retry_wait(builder: ClusterClientBuilder, wait: u64) -> (r: ClusterClientBuilder)
    ensures
        redis_builder_options(r) == (RedisClientOptions { max_retry_wait: Some(wait), ..redis_builder_options(builder) }),
{
    builder.max_retry_wait(wait)
}

/// `ClusterClientBuilder::min_retry_wait`, keeping the rest.
#[verifier::external_body]
fn cluster_builder_min_retry_wait(builder: ClusterClientBuilder, wait: u64) -> (r: ClusterClientBuilder)
    ensures
        redis_builder_options(r) == (RedisClientOptions { min_retry_wait: Some(wait), ..redis_builder_options(builder) }),
{
    builder.min_retry_wait(wait)
}

/// `ClusterClientBuilder::read_from_replicas`: reads may go to replicas, keeping the rest.
#[verifier::external_body]
#[allow(deprecated)]
fn cluster_builder_read_from_replicas(builder: ClusterClientBuilder) -> (r: ClusterClientBuilder)
    ensures
        redis_builder_options(r) == (RedisClientOptions { read_from_replicas: true, ..redis_builder_options(builder) }),
{
    builder.read_from_replicas()
}

/// `ClusterClientBuilder::build`: the client, built with the builder's settings,
/// or the error the redis crate reports for nodes it cannot use. It opens no
/// connection; whether it succeeds depends on the nodes and the credentials given.
#[verifier::external_body]
fn cluster_builder_build(builder: ClusterClientBuilder) -> (r: Result<ClusterClient, redis::RedisError>)
    ensures
        r is Ok <==> redis_cluster_builds(redis_builder_options(builder).nodes,
            redis_builder_options(builder).username, redis_builder_options(builder).password),
        r matches Ok(c) ==> redis_client_options(c) == redis_builder_options(builder),
{
    builder.build()
}

/// The settings a cluster client is built with.
#[derive(Debug, Clone)]
pub struct RedisClientSettings {
    pub nodes: Vec<String>,
    pub username: Option<String>,
    pub password: Option<String>,
    pub connection_timeout: Option<u64>,
    pub response_timeout: Option<u64>,
    pub retries: Option<u32>,
    pub max_retry_wait: Option<u64>,
    pub min_retry_wait: Option<u64>,
    pub read_from_replicas: bool,
}

fn copy_strings(v: &Vec<String>) -> (r: Vec<String>)
    ensures
        strings_are(r@, texts_of(v@)),
{
    let mut out: Vec<String> = Vec::new();
    let mut i: usize = 0;
    while i < v.len()
        invariant
            i <= v@.len(),
            out@.len() == i,
            forall|j: int| 0 <= j < i ==> #[trigger] out@[j]@ == v@[j]@,
        decreases v@.len() - i,
    {
        out.push(v[i].clone());
        i = i + 1;
    }
    out
}

impl RedisClientSettings {
    /// The settings the properties ask for. Reading from replicas is turned on
    /// whenever the property is given, whatever its value.
    pub fn from_properties(config: &RedisProperties) -> (r: RedisClientSettings)
        ensures
            strings_are(r.nodes@, texts_of(config.nodes@)),
            same_opt_text(r.username, config.username),
            same_opt_text(r.password, config.password),
            r.connection_timeout == config.connection_timeout,
            r.response_timeout == config.response_timeout,
            r.retries == config.retries,
            r.max_retry_wait == config.max_retry_wait,
            r.min_retry_wait == config.min_retry_wait,
            r.read_from_replicas == config.read_from_replicas is Some,
    {
        RedisClientSettings {
            nodes: copy_strings(&config.nodes),
            username: clone_opt_text(&config.username),
            password: clone_opt_text(&config.password),
            connection_timeout: config.connection_timeout,
            response_timeout: config.response_timeout,
            retries: config.retries,
            max_retry_wait: config.max_retry_wait,
            min_retry_wait: config.min_retry_wait,
            read_from_replicas: config.read_from_replicas.is_some(),
        }
    }
}

/// An argument of a Redis command.
#[derive(Debug, Clone)]
pub enum RedisArg {
    Text(String),
    Int(i64),
    UInt(u64),
}

/// A Redis command: its name and its arguments, in order.
#[derive(Debug, Clone)]
pub struct RedisCommand {
    pub name: String,
    pub args: Vec<RedisArg>,
}

/// Whether an argument is the given text.
pub open spec fn arg_is_text(a: RedisArg, t: Seq<char>) -> bool {
    a matches RedisArg::Text(s) && s@ == t
}

/// Whether the command has the given name and text arguments.
pub open spec fn command_is(c: RedisCommand, name: Seq<char>, texts: Seq<Seq<char>>) -> bool {
    &&& c.name@ == name
    &&& c.args@.len() == texts.len()
    &&& forall|i: int| 0 <= i < texts.len() ==> arg_is_text(#[trigger] c.args@[i], texts[i])
}

/// The arguments of `HSET`: the key, then each field followed by its value.
pub open spec fn hset_args(key: Seq<char>, fvs: Seq<(String, String)>) -> Seq<Seq<char>>
    decreases fvs.len(),
{
    if fvs.len() == 0 {
        seq![key]
    } else {
        hset_args(key, fvs.drop_last()).push(fvs.last().0@).push(fvs.last().1@)
    }
}

/// Law: the arguments of `HSET` are the key, then for each pair its field at
/// position `1 + 2i` and its value at position `2 + 2i`.
pub proof fn law_hset_args_by_index(key: Seq<char>, fvs: Seq<(String, String)>)
    ensures
        hset_args(key, fvs).len() == 1 + 2 * fvs.len(),
        hset_args(key, fvs)[0] == key,
        forall|i: int| 0 <= i < fvs.len() ==> hset_args(key, fvs)[1 + 2 * i] == (#[trigger] fvs[i]).0@
            && hset_args(key, fvs)[2 + 2 * i] == fvs[i].1@,
    decreases fvs.len(),
{
    if fvs.len() > 0 {
        let rest = fvs.drop_last();
        law_hset_args_by_index(key, rest);
        assert forall|i: int| 0 <= i < fvs.len() implies hset_args(key, fvs)[1 + 2 * i] == (#[trigger] fvs[i]).0@
            && hset_args(key, fvs)[2 + 2 * i] == fvs[i].1@ by {
            if i < fvs.len() - 1 {
                assert(rest[i] == fvs[i]);
            }
        }
    }
}

fn text_arg(s: &str) -> (r: RedisArg)
    ensures
        arg_is_text(r, s@),
{
    RedisArg::Text(String::from_str(s))
}

fn command(name: &str, args: Vec<RedisArg>) -> (r: RedisCommand)
    ensures
        r.name@ == name@,
        r.args@ == args@,
{
    RedisCommand { name: String::from_str(name), args }
}

fn command1(name: &str, a: &str) -> (r: RedisCommand)
    ensures
        command_is(r, name@, seq![a@]),
{
    let mut args: Vec<RedisArg> = Vec::new();
    args.push(text_arg(a));
    command(name, args)
}

fn command2(name: &str, a: &str, b: &str) -> (r: RedisCommand)
    ensures
        command_is(r, name@, seq![a@, b@]),
{
    let mut args: Vec<RedisArg> = Vec::new();
    args.push(text_arg(a));
    args.push(text_arg(b));
    command(name, args)
}

fn command3(name: &str, a: &str, b: &str, c: &str) -> (r: RedisCommand)
    ensures
        command_is(r, name@, seq![a@, b@, c@]),
{
    let mut args: Vec<RedisArg> = Vec::new();
    args.push(text_arg(a));
    args.push(text_arg(b));
    args.push(text_arg(c));
    command(name, args)
}

/// The string cache kept in a Redis cluster.
pub struct StringRedisCache {
    client: ClusterClient,
}

impl StringRedisCache {
    /// Builds the cluster client with the settings the properties ask for (see
    /// `options_of`), or gives the error of the redis crate. No connection is opened.
    fn build_client(config: &RedisProperties) -> (r: Result<ClusterClient, redis::RedisError>)
        ensures
            r is Ok <==> redis_cluster_builds(texts_of(config.nodes@), text_view(config.username), text_view(config.password)),
            r matches Ok(c) ==> redis_client_options(c) == options_of(*config),
    {
        let settings = RedisClientSettings::from_properties(config);
        proof {
            assert(texts_of(settings.nodes@) =~= texts_of(config.nodes@));
        }
        let mut builder = cluster_builder_new(&settings.nodes);
        if let Some(username) = &settings.username {
            builder = cluster_builder_username(builder, username);
        }
        if let Some(password) = &settings.password {
            builder = cluster_builder_password(builder, password);
        }
        if let Some(timeout) = settings.connection_timeout {
            builder = cluster_builder_connection_timeout(builder, timeout);
        }
        if let Some(timeout) = settings.response_timeout {
            builder = cluster_builder_response_timeout(builder, timeout);
        }
        if let Some(retries) = settings.retries {
            builder = cluster_builder_retries(builder, retries);
        }
        if let Some(wait) = settings.max_retry_wait {
            builder = cluster_builder_max_retry_wait(builder, wait);
        }
        if let Some(wait) = settings.min_retry_wait {
            builder = cluster_builder_min_retry_wait(builder, wait);
        }
        if settings.read_from_replicas {
            builder = cluster_builder_read_from_replicas(builder);
        }
        assert(redis_builder_options(builder) == options_of(*config));
        cluster_builder_build(builder)
    }

    /// The cache on a cluster client with the settings the properties ask for
    /// (see `options_of`). The redis crate must accept the nodes with the
    /// credentials given (`try_new` tests that). No connection is opened.
    pub fn new(config: &RedisProperties) -> (r: StringRedisCache)
        requires
            redis_cluster_builds(texts_of(config.nodes@), text_view(config.username), text_view(config.password)),
        ensures
            redis_client_options(r.cluster()) == options_of(*config),
    {
        match StringRedisCache::build_client(config) {
            Ok(client) => StringRedisCache { client },
            Err(_) => vstd::pervasive::unreached(),
        }
    }

    /// Like `new`, but first tests whether the redis crate accepts the nodes with
    /// the credentials given; an error when it does not.
    pub fn try_new(config: &RedisProperties) -> (r: Result<StringRedisCache, CacheError>)
        ensures
            r is Ok <==> redis_cluster_builds(texts_of(config.nodes@), text_view(config.username), text_view(config.password)),
            r matches Ok(c) ==> redis_client_options(c.cluster()) == options_of(*config),
            r matches Err(e) ==> e.message@ == "Failed to build redis cluster client"@,
    {
        match StringRedisCache::build_client(config) {
            Ok(_) => Ok(StringRedisCache::new(config)),
            Err(_) => Err(CacheError { message: String::from_str("Failed to build redis cluster client") }),
        }
    }



    /// The cluster client held.
    pub closed spec fn cluster(&self) -> ClusterClient {
        self.client
    }

    /// The cluster client, for the round trips.
    pub fn client(&self) -> (r: &ClusterClient)
        ensures
            *r == self.cluster(),
    {
        &self.client
    }

    /// `GET key`.
    pub fn get_command(key: &str) -> (r: RedisCommand)
        ensures
            command_is(r, "GET"@, seq![key@]),
    {
        command1("GET", key)
    }

    /// `SETEX key seconds value` when an expiry is given, else `SET key value`.
    pub fn set_command(key: &str, value: &str, seconds: Option<i32>) -> (r: RedisCommand)
        ensures
            seconds is None ==> command_is(r, "SET"@, seq![key@, value@]),
            seconds matches Some(s) ==> r.name@ == "SETEX"@ && r.args@.len() == 3 && arg_is_text(r.args@[0], key@)
                && r.args@[1] == RedisArg::Int(s as i64) && arg_is_text(r.args@[2], value@),
    {
        match seconds {
            Some(s) => {
                let mut args: Vec<RedisArg> = Vec::new();
                args.push(text_arg(key));
                args.push(RedisArg::Int(s as i64));
                args.push(text_arg(value));
                command("SETEX", args)
            },
            None => command2("SET", key, value),
        }
    }

    /// `SETNX key value`; without a value, `SETNX key`.
    pub fn set_nx_command(key: &str, value: &Option<String>) -> (r: RedisCommand)
        ensures
            value matches Some(v) ==> command_is(r, "SETNX"@, seq![key@, v@]),
            value is None ==> command_is(r, "SETNX"@, seq![key@]),
    {
        match value {
            Some(v) => command2("SETNX", key, v.as_str()),
            None => command1("SETNX", key),
        }
    }

    /// `KEYS pattern`.
    pub fn keys_command(pattern: &str) -> (r: RedisCommand)
        ensures
            command_is(r, "KEYS"@, seq![pattern@]),
    {
        command1("KEYS", pattern)
    }

    /// `HGET key field`, the field being empty when none is given.
    pub fn hget_command(key: &str, field: &Option<String>) -> (r: RedisCommand)
        ensures
            field matches Some(f) ==> command_is(r, "HGET"@, seq![key@, f@]),
            field is None ==> command_is(r, "HGET"@, seq![key@, Seq::<char>::empty()]),
    {
        match field {
            Some(f) => command2("HGET", key, f.as_str()),
            None => {
                proof {
                    reveal_strlit("");
                    assert(""@ =~= Seq::<char>::empty());
                }
                command2("HGET", key, "")
            },
        }
    }

    /// `HGETALL key`.
    pub fn hget_all_command(key: &str) -> (r: RedisCommand)
        ensures
            command_is(r, "HGETALL"@, seq![key@]),
    {
        command1("HGETALL", key)
    }

    /// `HKEYS key`.
    pub fn hkeys_command(key: &str) -> (r: RedisCommand)
        ensures
            command_is(r, "HKEYS"@, seq![key@]),
    {
        command1("HKEYS", key)
    }

    /// `HSET key field value ...` with each given pair in order.
    pub fn hset_command(key: &str, field_values: &Option<Vec<(String, String)>>) -> (r: RedisCommand)
        ensures
            field_values matches Some(fvs) ==> command_is(r, "HSET"@, hset_args(key@, fvs@)),
            field_values is None ==> command_is(r, "HSET"@, seq![key@]),
            field_values matches Some(fvs) ==> r.args@.len() == 1 + 2 * fvs@.len() && arg_is_text(r.args@[0], key@)
                && forall|i: int| 0 <= i < fvs@.len() ==> arg_is_text(r.args@[1 + 2 * i], (#[trigger] fvs@[i]).0@)
                    && arg_is_text(r.args@[2 + 2 * i], fvs@[i].1@),
    {
        let mut args: Vec<RedisArg> = Vec::new();
        args.push(text_arg(key));
        let ghost texts = seq![key@];
        assert(hset_args(key@, Seq::<(String, String)>::empty()) == texts);
        if let Some(fvs) = field_values {
            let mut i: usize = 0;
            while i < fvs.len()
                invariant
                    i <= fvs@.len(),
                    args@.len() == hset_args(key@, fvs@.take(i as int)).len(),
                    forall|j: int| 0 <= j < args@.len() ==> arg_is_text(#[trigger] args@[j], hset_args(key@, fvs@.take(i as int))[j]),
                    args@.len() == 1 + 2 * i,
                    arg_is_text(args@[0], key@),
                    forall|j: int| 0 <= j < i ==> arg_is_text(args@[1 + 2 * j], (#[trigger] fvs@[j]).0@)
                        && arg_is_text(args@[2 + 2 * j], fvs@[j].1@),
                decreases fvs@.len() - i,
            {
                let ghost prev = hset_args(key@, fvs@.take(i as int));
                proof {
                    assert(fvs@.take(i + 1).drop_last() =~= fvs@.take(i as int));
                }
                args.push(text_arg(fvs[i].0.as_str()));
                args.push(text_arg(fvs[i].1.as_str()));
                i = i + 1;
            }
            proof {
                assert(fvs@.take(fvs@.len() as int) =~= fvs@);
            }
        }
        command("HSET", args)
    }

    /// `HSETNX key field value`.
    pub fn hset_nx_command(key: &str, field: &str, value: &str) -> (r: RedisCommand)
        ensures
            command_is(r, "HSETNX"@, seq![key@, field@, value@]),
    {
        command3("HSETNX", key, field, value)
    }

    /// `HDEL key field`.
    pub fn hdel_command(key: &str, field: &str) -> (r: RedisCommand)
        ensures
            command_is(r, "HDEL"@, seq![key@, field@]),
    {
        command2("HDEL", key, field)
    }

    /// `PEXPIRE key milliseconds NX`.
    pub fn expire_command(key: &str, milliseconds: i64) -> (r: RedisCommand)
        ensures
            r.name@ == "PEXPIRE"@ && r.args@.len() == 3 && arg_is_text(r.args@[0], key@)
                && r.args@[1] == RedisArg::Int(milliseconds) && arg_is_text(r.args@[2], "NX"@),
    {
        let mut args: Vec<RedisArg> = Vec::new();
        args.push(text_arg(key));
        args.push(RedisArg::Int(milliseconds));
        args.push(text_arg("NX"));
        command("PEXPIRE", args)
    }

    /// `GETBIT key offset`.
    pub fn get_bit_command(key: &str, offset: u64) -> (r: RedisCommand)
        ensures
            r.name@ == "GETBIT"@ && r.args@.len() == 2 && arg_is_text(r.args@[0], key@)
                && r.args@[1] == RedisArg::UInt(offset),
    {
        let mut args: Vec<RedisArg> = Vec::new();
        args.push(text_arg(key));
        args.push(RedisArg::UInt(offset));
        command("GETBIT", args)
    }

    /// `SETBIT key offset 1` or `SETBIT key offset 0`.
    pub fn set_bit_command(key: &str, offset: u64, value: bool) -> (r: RedisCommand)
        ensures
            r.name@ == "SETBIT"@ && r.args@.len() == 3 && arg_is_text(r.args@[0], key@)
                && r.args@[1] == RedisArg::UInt(offset) && r.args@[2] == RedisArg::Int(if value { 1 } else { 0 }),
    {
        let mut args: Vec<RedisArg> = Vec::new();
        args.push(text_arg(key));
        args.push(RedisArg::UInt(offset));
        args.push(RedisArg::Int(if value { 1 } else { 0 }));
        command("SETBIT", args)
    }

    /// `DEL key`.
    pub fn del_command(key: &str) -> (r: RedisCommand)
        ensures
            command_is(r, "DEL"@, seq![key@]),
    {
        command1("DEL", key)
    }

    /// The outcome of `SET`/`SETEX`: whether the reply is `OK`.
    pub fn set_succeeded(reply: &str) -> (r: bool)
        ensures
            r == (reply@ == "OK"@),
    {
        crate::text::str_eq(reply, "OK")
    }

    /// The outcome of `SETNX`, `HSETNX` and `PEXPIRE`: whether the reply count is positive.
    pub fn count_positive(reply: i64) -> (r: bool)
        ensures
            r == (reply > 0),
    {
        reply > 0
    }

    /// The outcome of `HSET`, `HDEL` and `GETBIT`: whether the reply count is at least one.
    pub fn count_at_least_one(reply: i64) -> (r: bool)
        ensures
            r == (reply >= 1),
    {
        reply >= 1
    }

    /// The outcome of `SETBIT`: whether the old bit was set; false when the command failed.
    pub fn set_bit_outcome(reply: Result<i64, CacheError>) -> (r: bool)
        ensures
            r == (reply matches Ok(n) && n >= 1),
    {
        match reply {
            Ok(n) => n >= 1,
            Err(_) => false,
        }
    }

    /// The outcome of `DEL`: whether a key was removed; false when the command failed.
    pub fn del_outcome(reply: Result<i32, CacheError>) -> (r: bool)
        ensures
            r == (reply matches Ok(n) && n > 0),
    {
        match reply {
            Ok(n) => n > 0,
            Err(_) => false,
        }
    }
}

} // verus!
