//! The log records the server emits, and the verified builders that
//! assemble them from the resolved configuration, the registered
//! routes and catchers, and the metadata of a completed exchange.

use vstd::prelude::*;
use vstd::string::StringExecFns;
use crate::text::{dec_digits, join_sep, join_strings, u16_to_dec};

verus! {

/// The resolved server configuration, as plain values: everything the
/// startup records report.
pub struct ServerConfig {
    /// Rendering of the configured log level.
    pub log_level: String,
    /// The server's identity string, as sent in response headers.
    pub ident: String,
    /// Whether TLS is enabled.
    pub tls: bool,
    /// Rendering of the configured payload limits.
    pub limits: String,
    /// Keep-alive timeout in seconds.
    pub keep_alive: u32,
    /// Number of worker threads.
    pub workers: usize,
    /// The port the server listens on.
    pub port: u16,
    /// The address the server binds, rendered as text.
    pub address: String,
    /// Name of the active configuration profile.
    pub profile: String,
}

/// One registered route, as plain values.
pub struct RouteInfo {
    /// Priority rank; lower ranks are tried first.
    pub rank: isize,
    /// The route's name, if it has one.
    pub name: Option<String>,
    /// Rendering of the route's media type, if it declares one.
    pub format: Option<String>,
    /// The route's path, beginning with `/`.
    pub uri: String,
    /// Rendering of the route's HTTP method.
    pub method: String,
}

/// One registered error catcher, as plain values.
pub struct CatcherInfo {
    /// The catcher's name, if it has one.
    pub name: Option<String>,
    /// The status code the catcher handles; `None` for the default
    /// catcher, which handles every code.
    pub code: Option<u16>,
    /// The base path under which the catcher applies.
    pub base: String,
}

/// One structured log record.  Each variant carries the payload
/// fields of one event, already rendered to plain values; the
/// variant and field spellings `Reqest` and `user_adent` reproduce
/// the emitted schema, which downstream log consumers rely on.
pub enum LogRecord {
    /// Emitted once at liftoff, before any other record.
    Launched {
        log_level: String,
        ident: String,
        tls: bool,
        limits: String,
        keep_alive: u32,
        workers: usize,
        port: u16,
        host: String,
        profile: String,
    },
    /// Emitted once per registered route at liftoff.
    RouteRegistered {
        rank: isize,
        route: Option<String>,
        content_type: Option<String>,
        url: String,
        method: String,
    },
    /// Emitted once per registered catcher at liftoff.
    CatcherRegistered { route: Option<String>, code: Option<u16>, path: String, url: String },
    /// Emitted once at the end of liftoff.
    AcceptingConnections { port: u16, host: String, url: String },
    /// Emitted once per completed response.
    Reqest { user_adent: String, source_ip: String, status: u16 },
}

/// The views of an optional string's characters.
pub open spec fn opt_chars(o: Option<String>) -> Option<Seq<char>> {
    match o {
        Some(s) => Some(s@),
        None => None,
    }
}

/// The scheme the server serves under: `https` iff TLS is enabled.
pub open spec fn scheme_chars(tls: bool) -> Seq<char> {
    if tls {
        "https"@
    } else {
        "http"@
    }
}

/// The server's base URL: `scheme://address:port`.
pub open spec fn url_chars(tls: bool, address: Seq<char>, port: u16) -> Seq<char> {
    scheme_chars(tls) + "://"@ + address + ":"@ + dec_digits(port as nat)
}

/// The scheme of the base URL is `https` exactly when TLS is enabled,
/// else `http`, and everything after the scheme is the same either
/// way.
pub proof fn lemma_url_scheme(address: Seq<char>, port: u16)
    ensures
        url_chars(true, address, port).take(5) == "https"@,
        url_chars(false, address, port).take(4) == "http"@,
        url_chars(true, address, port).skip(5) == url_chars(false, address, port).skip(4),
{
    reveal_strlit("https");
    reveal_strlit("http");
    assert(url_chars(true, address, port).take(5) =~= "https"@);
    assert(url_chars(false, address, port).take(4) =~= "http"@);
    assert(url_chars(true, address, port).skip(5) =~= url_chars(false, address, port).skip(
        4,
    ));
}

/// Builds the server's base URL from the resolved configuration.
pub fn url_from_config(c: &ServerConfig) -> (s: String)
    ensures
        s@ == url_chars(c.tls, c.address@, c.port),
{
    let mut s = if c.tls {
        String::from_str("https")
    } else {
        String::from_str("http")
    };
    s.append("://");
    s.append(c.address.as_str());
    s.append(":");
    let port = u16_to_dec(c.port);
    s.append(port.as_str());
    proof {
        assert(s@ =~= url_chars(c.tls, c.address@, c.port));
    }
    s
}

/// `rec` is the launch record for configuration `c`: every payload
/// field reports the corresponding configuration value.
pub open spec fn is_launched_record(rec: LogRecord, c: ServerConfig) -> bool {
    match rec {
        LogRecord::Launched {
            log_level,
            ident,
            tls,
            limits,
            keep_alive,
            workers,
            port,
            host,
            profile,
        } => {
            &&& log_level@ == c.log_level@
            &&& ident@ == c.ident@
            &&& tls == c.tls
            &&& limits@ == c.limits@
            &&& keep_alive == c.keep_alive
            &&& workers == c.workers
            &&& port == c.port
            &&& host@ == c.address@
            &&& profile@ == c.profile@
        },
        _ => false,
    }
}

/// `rec` is the registration record for route `r` under base URL
/// `base`: its `url` is `base` with the route's path appended,
/// verbatim, and the remaining fields are the route's own.
pub open spec fn is_route_record(rec: LogRecord, base: Seq<char>, r: RouteInfo) -> bool {
    match rec {
        LogRecord::RouteRegistered { rank, route, content_type, url, method } => {
            &&& rank == r.rank
            &&& opt_chars(route) == opt_chars(r.name)
            &&& opt_chars(content_type) == opt_chars(r.format)
            &&& url@ == base + r.uri@
            &&& method@ == r.method@
        },
        _ => false,
    }
}

/// `rec` is the registration record for catcher `c` under base URL
/// `base`: its `url` is `base` with the catcher's base path appended,
/// verbatim.
pub open spec fn is_catcher_record(rec: LogRecord, base: Seq<char>, c: CatcherInfo) -> bool {
    match rec {
        LogRecord::CatcherRegistered { route, code, path, url } => {
            &&& opt_chars(route) == opt_chars(c.name)
            &&& code == c.code
            &&& path@ == c.base@
            &&& url@ == base + c.base@
        },
        _ => false,
    }
}

/// `rec` is the listening record for configuration `c`: port, host,
/// and the base URL itself.
pub open spec fn is_accepting_record(rec: LogRecord, c: ServerConfig) -> bool {
    match rec {
        LogRecord::AcceptingConnections { port, host, url } => {
            &&& port == c.port
            &&& host@ == c.address@
            &&& url@ == url_chars(c.tls, c.address@, c.port)
        },
        _ => false,
    }
}

/// `rec` is the record of a completed exchange: its user-agent field
/// is the request's `user-agent` values joined with `"; "` (empty if
/// there were none), and it carries the source address and the final
/// response status.
pub open spec fn is_reqest_record(
    rec: LogRecord,
    user_agents: Seq<Seq<char>>,
    source_ip: Seq<char>,
    status: u16,
) -> bool {
    match rec {
        LogRecord::Reqest { user_adent, source_ip: ip, status: st } => {
            &&& user_adent@ == join_sep(user_agents)
            &&& ip@ == source_ip
            &&& st == status
        },
        _ => false,
    }
}

/// Builds the launch record from the resolved configuration.
pub fn launched_record(c: &ServerConfig) -> (rec: LogRecord)
    ensures
        is_launched_record(rec, *c),
{
    LogRecord::Launched {
        log_level: c.log_level.clone(),
        ident: c.ident.clone(),
        tls: c.tls,
        limits: c.limits.clone(),
        keep_alive: c.keep_alive,
        workers: c.workers,
        port: c.port,
        host: c.address.clone(),
        profile: c.profile.clone(),
    }
}

/// Builds the registration record for one route.
pub fn route_record(base: &String, r: &RouteInfo) -> (rec: LogRecord)
    ensures
        is_route_record(rec, base@, *r),
{
    LogRecord::RouteRegistered {
        rank: r.rank,
        route: clone_opt(&r.name),
        content_type: clone_opt(&r.format),
        url: base.clone().concat(r.uri.as_str()),
        method: r.method.clone(),
    }
}

/// Builds the registration record for one catcher.
pub fn catcher_record(base: &String, c: &CatcherInfo) -> (rec: LogRecord)
    ensures
        is_catcher_record(rec, base@, *c),
{
    LogRecord::CatcherRegistered {
        route: clone_opt(&c.name),
        code: c.code,
        path: c.base.clone(),
        url: base.clone().concat(c.base.as_str()),
    }
}

/// Builds the listening record from the resolved configuration.
pub fn accepting_record(c: &ServerConfig) -> (rec: LogRecord)
    ensures
        is_accepting_record(rec, *c),
{
    LogRecord::AcceptingConnections {
        port: c.port,
        host: c.address.clone(),
        url: url_from_config(c),
    }
}

/// Builds the record of a completed exchange.
pub fn reqest_record(user_agents: &Vec<String>, source_ip: String, status: u16) -> (rec:
    LogRecord)
    ensures
        is_reqest_record(rec, user_agents@.map_values(|v: String| v@), source_ip@, status),
{
    LogRecord::Reqest { user_adent: join_strings(user_agents), source_ip, status }
}

/// Clones an optional string.
fn clone_opt(o: &Option<String>) -> (r: Option<String>)
    ensures
        opt_chars(r) == opt_chars(*o),
{
    match o {
        Some(s) => Some(s.clone()),
        None => None,
    }
}

/// The event label under which each record is emitted; `Reqest`
/// reproduces the emitted schema's spelling.
pub open spec fn label_chars(rec: LogRecord) -> Seq<char> {
    match rec {
        LogRecord::Launched { .. } => "Rocket Launched"@,
        LogRecord::RouteRegistered { .. } => "Route Registered"@,
        LogRecord::CatcherRegistered { .. } => "Catcher Registered"@,
        LogRecord::AcceptingConnections { .. } => "Accepting Connections"@,
        LogRecord::Reqest { .. } => "Reqest"@,
    }
}

impl LogRecord {
    /// The event label this record is emitted under.
    pub fn label(&self) -> (r: &'static str)
        ensures
            r@ == label_chars(*self),
    {
        match self {
            LogRecord::Launched { .. } => "Rocket Launched",
            LogRecord::RouteRegistered { .. } => "Route Registered",
            LogRecord::CatcherRegistered { .. } => "Catcher Registered",
            LogRecord::AcceptingConnections { .. } => "Accepting Connections",
            LogRecord::Reqest { .. } => "Reqest",
        }
    }
}

} // verus!
