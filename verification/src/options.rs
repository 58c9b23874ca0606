//! Command-line options of the marketplace solver's database connection.

use std::time::Duration;
use vstd::prelude::*;

verus! {

/// A URL, as the `url` crate parses it; carried through unread.
#[verifier::external_type_specification]
#[verifier::external_body]
pub struct ExUrl(url::Url);

/// Options of the marketplace solver.
#[derive(Debug)]
pub struct Options {
    /// Port to run the server on.
    pub solver_api_port: u16,
    /// URL of the HotShot events service API.
    pub events_api_url: url::Url,
    pub database_options: DatabaseOptions,
}

/// Arguments for establishing a database connection.
#[derive(Clone, Debug)]
pub struct DatabaseOptions {
    /// Postgres URL connection string.
    pub url: Option<String>,
    pub host: Option<String>,
    pub port: Option<u16>,
    pub db_name: Option<String>,
    pub username: Option<String>,
    pub password: Option<String>,
    pub max_connections: Option<u32>,
    pub acquire_timeout: Option<Duration>,
    /// Require TLS on the connection; `false` unless asked for.
    pub require_ssl: bool,
    /// Run the schema migrations on connect; `true` unless turned off.
    pub migrations: bool,
    /// Wipe the database on connect; `false` unless asked for.
    pub reset: bool,
}

/// `o` with the database to be wiped on connect.
pub open spec fn with_reset(o: DatabaseOptions) -> DatabaseOptions {
    DatabaseOptions { reset: true, ..o }
}

impl DatabaseOptions {
    /// The same options, with the database to be wiped on connect.
    pub fn reset(self) -> (r: Self)
        ensures
            r == with_reset(self),
    {
        let mut s = self;
        s.reset = true;
        s
    }
}

/// Asking for a reset twice is asking once; every other option is kept.
pub proof fn reset_is_idempotent(o: DatabaseOptions)
    ensures
        with_reset(with_reset(o)) == with_reset(o),
        with_reset(o).reset,
        with_reset(o).url == o.url && with_reset(o).host == o.host && with_reset(o).port == o.port
            && with_reset(o).db_name == o.db_name && with_reset(o).username == o.username
            && with_reset(o).password == o.password && with_reset(o).max_connections
            == o.max_connections && with_reset(o).acquire_timeout == o.acquire_timeout
            && with_reset(o).require_ssl == o.require_ssl && with_reset(o).migrations
            == o.migrations,
{
}

} // verus!
