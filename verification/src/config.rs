//! The service's configuration, loaded once at startup and handed to each component
//! by reference.

use vstd::prelude::*;

verus! {

/// The largest page size that a caller may ask for.
pub const MAX_LIMIT: i64 = 100;

/// Where the document store is and how to log in.
#[derive(Clone, Debug)]
pub struct DBConfig {
    host: String,
    db: String,
    user: String,
    password: String,
    port: Option<u16>,
}

impl DBConfig {
    pub closed spec fn host_name(&self) -> Seq<char> {
        self.host@
    }

    pub closed spec fn db_name(&self) -> Seq<char> {
        self.db@
    }

    pub closed spec fn user_name(&self) -> Seq<char> {
        self.user@
    }

    pub closed spec fn password_text(&self) -> Seq<char> {
        self.password@
    }

    pub closed spec fn port_number(&self) -> Option<u16> {
        self.port
    }

    pub fn new(host: String, db: String, user: String, password: String, port: Option<u16>) -> (c: Self)
        ensures
            c.host_name() == host@,
            c.db_name() == db@,
            c.user_name() == user@,
            c.password_text() == password@,
            c.port_number() == port,
    {
        DBConfig { host, db, user, password, port }
    }

    /// The name of the database that holds the service's collections.
    pub fn get_db(&self) -> (name: &str)
        ensures
            name@ == self.db_name(),
    {
        self.db.as_str()
    }

    pub fn host(&self) -> (name: &str)
        ensures
            name@ == self.host_name(),
    {
        self.host.as_str()
    }

    pub fn user(&self) -> (name: &str)
        ensures
            name@ == self.user_name(),
    {
        self.user.as_str()
    }

    pub fn password(&self) -> (text: &str)
        ensures
            text@ == self.password_text(),
    {
        self.password.as_str()
    }

    pub fn port(&self) -> (port: Option<u16>)
        ensures
            port == self.port_number(),
    {
        self.port
    }
}

/// How to reach the upstream provider of live transit data.
#[derive(Clone, Debug)]
pub struct TTConfig {
    secret: String,
    base_url: String,
}

impl TTConfig {
    pub closed spec fn secret_text(&self) -> Seq<char> {
        self.secret@
    }

    pub closed spec fn base_url_text(&self) -> Seq<char> {
        self.base_url@
    }

    pub fn new(secret: String, base_url: String) -> (c: Self)
        ensures
            c.secret_text() == secret@,
            c.base_url_text() == base_url@,
    {
        TTConfig { secret, base_url }
    }

    pub fn secret(&self) -> (text: &str)
        ensures
            text@ == self.secret_text(),
    {
        self.secret.as_str()
    }

    pub fn base_url(&self) -> (text: &str)
        ensures
            text@ == self.base_url_text(),
    {
        self.base_url.as_str()
    }
}

/// The default page size and the freshness window. A value of this type always has
/// `1 <= default_limit <= MAX_LIMIT`.
#[derive(Clone, Copy, Debug)]
pub struct ApiConfig {
    default_limit: i64,
    max_rt_age: u64,
}

impl ApiConfig {
    #[verifier::type_invariant]
    spec fn default_in_range(self) -> bool {
        1 <= self.default_limit <= MAX_LIMIT
    }

    /// The page size used where a caller gives none, or an invalid one.
    pub closed spec fn default_page(self) -> int {
        self.default_limit as int
    }

    /// The age in seconds up to which a cached live trip is served as it is.
    pub closed spec fn max_age(self) -> int {
        self.max_rt_age as int
    }

    /// A configuration with the given default page size and freshness window, or
    /// `None` where the default page size is not from 1 to `MAX_LIMIT`.
    pub fn new(default_limit: i64, max_rt_age: u64) -> (c: Option<Self>)
        ensures
            c is Some <==> 1 <= default_limit <= MAX_LIMIT,
            c matches Some(c) ==> c.default_page() == default_limit && c.max_age() == max_rt_age,
    {
        if 1 <= default_limit && default_limit <= MAX_LIMIT {
            Some(ApiConfig { default_limit, max_rt_age })
        } else {
            None
        }
    }

    pub fn default_limit(&self) -> (v: i64)
        ensures
            v == self.default_page(),
            1 <= v <= MAX_LIMIT,
    {
        proof {
            use_type_invariant(self);
        }
        self.default_limit
    }

    pub fn max_rt_age(&self) -> (v: u64)
        ensures
            v == self.max_age(),
    {
        self.max_rt_age
    }
}

/// How live trips are fetched from upstream.
#[derive(Clone, Copy, Debug)]
pub struct RoutingConfig {
    pub parallel_downloads: Option<usize>,
}

impl RoutingConfig {
    /// How many upstream requests may run at once: the configured number, or 1
    /// where none, or zero, is configured.
    pub open spec fn ceiling(self) -> int {
        match self.parallel_downloads {
            Some(n) if n >= 1 => n as int,
            _ => 1,
        }
    }

    pub fn concurrency(&self) -> (c: usize)
        ensures
            c == self.ceiling(),
            c >= 1,
    {
        match self.parallel_downloads {
            Some(n) => if n >= 1 { n } else { 1 },
            None => 1,
        }
    }
}

/// The whole configuration.
#[derive(Clone, Debug)]
pub struct BrussConfig {
    pub db: DBConfig,
    pub tt: TTConfig,
    pub api: ApiConfig,
    pub routing: RoutingConfig,
}

} // verus!
