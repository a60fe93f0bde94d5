//! The lifecycle observer itself: which hooks it subscribes to, what
//! it registers at ignition, and the ordered records it emits at
//! liftoff and per completed response.

use vstd::prelude::*;
use vstd::pervasive::unreached;
use crate::records::{
    accepting_record, catcher_record, is_accepting_record, is_catcher_record, is_launched_record,
    is_reqest_record, is_route_record, launched_record, reqest_record, route_record,
    url_from_config, url_chars, CatcherInfo, LogRecord, RouteInfo, ServerConfig,
};

verus! {

/// Which lifecycle hooks an observer subscribes to, and the name it
/// registers under.
pub struct HookSubscription {
    /// The observer's registered name.
    pub name: String,
    /// Subscribes to the ignition hook.
    pub on_ignite: bool,
    /// Subscribes to the liftoff hook.
    pub on_liftoff: bool,
    /// Subscribes to the per-request hook.
    pub on_request: bool,
    /// Subscribes to the per-response hook.
    pub on_response: bool,
}

/// The request/response logging observer.  It holds no state of its
/// own; a copy of it is placed in the host's shared-state registry at
/// ignition so other components can retrieve it.
#[derive(Clone, Copy, PartialEq, Eq, Structural)]
pub struct Slogger {}

impl Slogger {
    /// The observer subscribes to all four lifecycle hooks under the
    /// name `Slog Fairing`.
    pub fn info(&self) -> (info: HookSubscription)
        ensures
            info.name@ == "Slog Fairing"@,
            info.on_ignite,
            info.on_liftoff,
            info.on_request,
            info.on_response,
    {
        HookSubscription {
            name: "Slog Fairing".to_owned(),
            on_ignite: true,
            on_liftoff: true,
            on_request: true,
            on_response: true,
        }
    }

    /// Ignition: yields the copy of the observer to be stored in the
    /// host's shared-state registry.  It always succeeds: no input in
    /// this component's control produces the failure variant.
    pub fn on_ignite(&self) -> (r: Result<Slogger, Slogger>)
        ensures
            r == Ok::<Slogger, Slogger>(*self),
    {
        Ok(*self)
    }

    /// Per-request hook: a reserved extension point.  It observes
    /// nothing and changes nothing.
    pub fn on_request(&self) {
    }

    /// Liftoff: the records to emit once the server is up, in order:
    /// the launch record, one registration record per route in
    /// registration order, one per catcher in registration order, and
    /// the listening record.
    pub fn on_liftoff(
        &self,
        config: &ServerConfig,
        routes: &Vec<RouteInfo>,
        catchers: &Vec<CatcherInfo>,
    ) -> (recs: Vec<LogRecord>)
        ensures
            recs@.len() == 2 + routes@.len() + catchers@.len(),
            is_launched_record(recs@[0], *config),
            forall|i: int|
                0 <= i < routes@.len() ==> is_route_record(
                    recs@[1 + i],
                    url_chars(config.tls, config.address@, config.port),
                    routes@[i],
                ),
            forall|i: int|
                0 <= i < catchers@.len() ==> is_catcher_record(
                    recs@[1 + routes@.len() + i],
                    url_chars(config.tls, config.address@, config.port),
                    catchers@[i],
                ),
            is_accepting_record(recs@[recs@.len() - 1], *config),
    {
        let base = url_from_config(config);
        let mut recs: Vec<LogRecord> = Vec::new();
        recs.push(launched_record(config));
        let mut i: usize = 0;
        while i < routes.len()
            invariant
                i <= routes.len(),
                base@ == url_chars(config.tls, config.address@, config.port),
                recs@.len() == 1 + i,
                is_launched_record(recs@[0], *config),
                forall|j: int|
                    0 <= j < i ==> is_route_record(recs@[1 + j], base@, routes@[j]),
            decreases routes.len() - i,
        {
            recs.push(route_record(&base, &routes[i]));
            i = i + 1;
        }
        let mut k: usize = 0;
        while k < catchers.len()
            invariant
                k <= catchers.len(),
                base@ == url_chars(config.tls, config.address@, config.port),
                recs@.len() == 1 + routes@.len() + k,
                is_launched_record(recs@[0], *config),
                forall|j: int|
                    0 <= j < routes@.len() ==> is_route_record(recs@[1 + j], base@, routes@[j]),
                forall|j: int|
                    0 <= j < k ==> is_catcher_record(
                        recs@[1 + routes@.len() + j],
                        base@,
                        catchers@[j],
                    ),
            decreases catchers.len() - k,
        {
            recs.push(catcher_record(&base, &catchers[k]));
            k = k + 1;
        }
        recs.push(accepting_record(config));
        recs
    }

    /// Response completion: the record of one finished exchange.  The
    /// source address must be present; its absence is a contract
    /// violation of the host, not a recoverable condition, so callers
    /// establish it before calling.
    pub fn on_response(
        &self,
        user_agents: &Vec<String>,
        source_ip: Option<String>,
        status: u16,
    ) -> (rec: LogRecord)
        requires
            source_ip is Some,
        ensures
            is_reqest_record(
                rec,
                user_agents@.map_values(|v: String| v@),
                source_ip->Some_0@,
                status,
            ),
    {
        match source_ip {
            Some(ip) => reqest_record(user_agents, ip, status),
            None => unreached(),
        }
    }
}

} // verus!
