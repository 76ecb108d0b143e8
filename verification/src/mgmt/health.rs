//! Health checks of the database and cache back ends, and the report that
//! `/_/healthz` answers with.
use vstd::prelude::*;
use vstd::string::*;
use crate::cache::fields::{distinct_fields, field_map, fields_insert_all, fields_merged};
use crate::config::config_api::{CacheProvider, DbType};

verus! {

/// The path the health report is served under.
pub const HEALTHZ_URI: &'static str = "/_/healthz";

/// One check's result, or the whole report: a status and named details.
#[derive(Debug, Clone)]
pub struct HealthCheckResult {
    pub status: String,
    pub details: Vec<(String, String)>,
}

/// `UP` for a healthy back end, `DOWN` otherwise.
pub open spec fn up_or_down(healthy: bool) -> Seq<char> {
    if healthy {
        "UP"@
    } else {
        "DOWN"@
    }
}

/// Whether a check result has the given status and the single detail `name` = `value`.
pub open spec fn is_check_result(r: HealthCheckResult, status: Seq<char>, name: Seq<char>, value: Seq<char>) -> bool {
    &&& r.status@ == status
    &&& r.details@.len() == 1
    &&& r.details@[0].0@ == name
    &&& r.details@[0].1@ == value
}

fn up_or_down_text(healthy: bool) -> (r: String)
    ensures
        r@ == up_or_down(healthy),
{
    if healthy {
        String::from_str("UP")
    } else {
        String::from_str("DOWN")
    }
}

fn check_result(name: &str, healthy: bool) -> (r: HealthCheckResult)
    ensures
        is_check_result(r, name@, name@, up_or_down(healthy)),
{
    let mut details: Vec<(String, String)> = Vec::new();
    details.push((String::from_str(name), up_or_down_text(healthy)));
    HealthCheckResult { status: String::from_str(name), details }
}

/// Checks the SQLite database, when it is the configured database.
#[derive(Clone, Debug)]
pub struct SQLiteChecker {}

/// Checks the MongoDB database, when it is the configured database.
#[derive(Clone, Debug)]
pub struct MongoChecker {}

/// Checks the Redis cluster, when it is the configured cache.
#[derive(Clone, Debug)]
pub struct RedisClusterChecker {}

impl SQLiteChecker {
    pub fn new() -> (r: Self) {
        SQLiteChecker {}
    }

    /// Whether the database must be probed: only when SQLite is in use.
    pub fn needs_probe(&self, db_type: DbType) -> (r: bool)
        ensures
            r == (db_type == DbType::Sqlite),
    {
        db_type == DbType::Sqlite
    }

    /// Healthy when SQLite is not in use, or the probe (a query) succeeded.
    pub fn is_sqlite_connected(&self, db_type: DbType, probe_ok: bool) -> (r: bool)
        ensures
            r == (db_type != DbType::Sqlite || probe_ok),
    {
        match db_type {
            DbType::Sqlite => probe_ok,
            _ => true,
        }
    }

    /// The check's result: status `sqlite`, detail `sqlite` = `UP` or `DOWN`.
    pub fn check(&self, db_type: DbType, probe_ok: bool) -> (r: HealthCheckResult)
        ensures
            is_check_result(r, "sqlite"@, "sqlite"@, up_or_down(db_type != DbType::Sqlite || probe_ok)),
    {
        let healthy = self.is_sqlite_connected(db_type, probe_ok);
        check_result("sqlite", healthy)
    }
}

impl MongoChecker {
    pub fn new() -> (r: Self) {
        MongoChecker {}
    }

    /// Whether the database must be probed: only when MongoDB is in use.
    pub fn needs_probe(&self, db_type: DbType) -> (r: bool)
        ensures
            r == (db_type == DbType::Mongo),
    {
        db_type == DbType::Mongo
    }

    /// Healthy when MongoDB is not in use, or the probe (a query) succeeded.
    pub fn is_mongo_connected(&self, db_type: DbType, probe_ok: bool) -> (r: bool)
        ensures
            r == (db_type != DbType::Mongo || probe_ok),
    {
        match db_type {
            DbType::Mongo => probe_ok,
            _ => true,
        }
    }

    /// The check's result: status `mongo`, detail `mongo` = `UP` or `DOWN`.
    pub fn check(&self, db_type: DbType, probe_ok: bool) -> (r: HealthCheckResult)
        ensures
            is_check_result(r, "mongo"@, "mongo"@, up_or_down(db_type != DbType::Mongo || probe_ok)),
    {
        let healthy = self.is_mongo_connected(db_type, probe_ok);
        check_result("mongo", healthy)
    }
}

impl RedisClusterChecker {
    pub fn new() -> (r: Self) {
        RedisClusterChecker {}
    }

    /// Whether the cluster must be probed: only when Redis is the cache.
    pub fn needs_probe(&self, provider: CacheProvider) -> (r: bool)
        ensures
            r == (provider == CacheProvider::Redis),
    {
        provider == CacheProvider::Redis
    }

    /// Healthy when Redis is not the cache, or the probe (a read) succeeded.
    pub fn is_redis_cluster_connected(&self, provider: CacheProvider, probe_ok: bool) -> (r: bool)
        ensures
            r == (provider != CacheProvider::Redis || probe_ok),
    {
        match provider {
            CacheProvider::Redis => probe_ok,
            _ => true,
        }
    }

    /// The check's result: status `redis-cluster`, detail `redis-cluster` = `UP` or `DOWN`.
    pub fn check(&self, provider: CacheProvider, probe_ok: bool) -> (r: HealthCheckResult)
        ensures
            is_check_result(
                r,
                "redis-cluster"@,
                "redis-cluster"@,
                up_or_down(provider != CacheProvider::Redis || probe_ok),
            ),
    {
        let healthy = self.is_redis_cluster_connected(provider, probe_ok);
        check_result("redis-cluster", healthy)
    }
}

/// The status of a report over the checks: `DOWN` when some check's status is
/// `DOWN`, `UP` otherwise.
pub open spec fn report_status(checks: Seq<HealthCheckResult>) -> Seq<char> {
    if exists|i: int| 0 <= i < checks.len() && (#[trigger] checks[i]).status@ == "DOWN"@ {
        "DOWN"@
    } else {
        "UP"@
    }
}

/// The details of a report over the checks: all their details, a later one
/// winning over an earlier one of the same name.
pub open spec fn report_details(checks: Seq<HealthCheckResult>) -> Map<Seq<char>, Seq<char>>
    decreases checks.len(),
{
    if checks.len() == 0 {
        Map::empty()
    } else {
        fields_merged(report_details(checks.drop_last()), checks.last().details@)
    }
}

proof fn lemma_merged_single(m: Map<Seq<char>, Seq<char>>, d: Seq<(String, String)>)
    requires
        d.len() == 1,
    ensures
        fields_merged(m, d) == m.insert(d[0].0@, d[0].1@),
{
    assert(d.drop_last().len() == 0);
    assert(fields_merged(m, d.drop_last()) == m);
    assert(d.last() == d[0]);
}

/// The report over the checks, in order: each check's details are added, and the
/// status turns `DOWN` when a check's status is `DOWN`.
pub fn aggregate(checks: &Vec<HealthCheckResult>) -> (r: HealthCheckResult)
    ensures
        r.status@ == report_status(checks@),
        distinct_fields(r.details@),
        field_map(r.details@) == report_details(checks@),
{
    let mut down = false;
    let mut details: Vec<(String, String)> = Vec::new();
    let mut i: usize = 0;
    while i < checks.len()
        invariant
            i <= checks@.len(),
            distinct_fields(details@),
            field_map(details@) == report_details(checks@.take(i as int)),
            down <==> exists|j: int| 0 <= j < i && (#[trigger] checks@[j]).status@ == "DOWN"@,
        decreases checks@.len() - i,
    {
        proof {
            assert(checks@.take(i + 1).drop_last() =~= checks@.take(i as int));
        }
        fields_insert_all(&mut details, &checks[i].details);
        if crate::text::str_eq(checks[i].status.as_str(), "DOWN") {
            down = true;
        }
        i = i + 1;
    }
    proof {
        assert(checks@.take(checks@.len() as int) =~= checks@);
    }
    let status = if down {
        String::from_str("DOWN")
    } else {
        String::from_str("UP")
    };
    HealthCheckResult { status, details }
}

/// The `/_/healthz` report for the three checks, given each probe's outcome (a
/// probe that is not needed counts as passed). No check reports the status `DOWN`
/// (each reports its own name), so the report's status is always `UP`; the
/// details say which back end is down.
pub fn healthz_report(db_type: DbType, provider: CacheProvider, sqlite_ok: bool, mongo_ok: bool, redis_ok: bool) -> (r: HealthCheckResult)
    ensures
        r.status@ == "UP"@,
        distinct_fields(r.details@),
        field_map(r.details@) == Map::<Seq<char>, Seq<char>>::empty()
            .insert("sqlite"@, up_or_down(db_type != DbType::Sqlite || sqlite_ok))
            .insert("mongo"@, up_or_down(db_type != DbType::Mongo || mongo_ok))
            .insert("redis-cluster"@, up_or_down(provider != CacheProvider::Redis || redis_ok)),
{
    let mut checks: Vec<HealthCheckResult> = Vec::new();
    let c1 = SQLiteChecker::new().check(db_type, sqlite_ok);
    let c2 = MongoChecker::new().check(db_type, mongo_ok);
    let c3 = RedisClusterChecker::new().check(provider, redis_ok);
    checks.push(c1);
    checks.push(c2);
    checks.push(c3);
    let r = aggregate(&checks);
    proof {
        reveal_strlit("sqlite");
        reveal_strlit("mongo");
        reveal_strlit("redis-cluster");
        reveal_strlit("DOWN");
        let cs = checks@;
        assert("sqlite"@.len() == 6 && "mongo"@.len() == 5 && "DOWN"@.len() == 4);
        assert(cs[0].status@ != "DOWN"@);
        assert(cs[1].status@ != "DOWN"@);
        assert(cs[2].status@ != "DOWN"@);
        assert(!exists|i: int| 0 <= i < cs.len() && (#[trigger] cs[i]).status@ == "DOWN"@);
        let s0 = cs.drop_last().drop_last().drop_last();
        let s1 = cs.drop_last().drop_last();
        let s2 = cs.drop_last();
        assert(s0 =~= Seq::<HealthCheckResult>::empty());
        assert(s1.drop_last() =~= s0);
        assert(s1.last() == cs[0]);
        assert(s2.last() == cs[1]);
        assert(cs.last() == cs[2]);
        lemma_merged_single(Map::empty(), cs[0].details@);
        lemma_merged_single(report_details(s1), cs[1].details@);
        lemma_merged_single(report_details(s2), cs[2].details@);
        assert(report_details(s0) == Map::<Seq<char>, Seq<char>>::empty());
        assert(report_details(s1) == fields_merged(Map::empty(), cs[0].details@));
        assert(report_details(s2) == fields_merged(report_details(s1), cs[1].details@));
        assert(report_details(cs) == fields_merged(report_details(s2), cs[2].details@));
    }
    r
}

} // verus!
