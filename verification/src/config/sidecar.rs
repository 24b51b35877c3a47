//! The configuration of a sidecar, the side that applications talk to.
use vstd::prelude::*;
use vstd::std_specs::cmp::PartialEqSpec;

use crate::config;
use crate::net::SocketAddress;
use crate::service::{
    after, reload_gives_equal_configurations, removal_steps, update_steps,
};
use crate::string_map::{distinct, to_map, StringMap};

verus! {

/// A service of a sidecar.
#[derive(Debug)]
pub enum ServiceConfig {
    /// Carries DNS requests to a local socket.
    DNS { path: String, listen: SocketAddress, timeout: u64 },
    /// Carries TCP connections to a local socket.
    TCP { path: String, listen: SocketAddress },
}

impl Clone for ServiceConfig {
    fn clone(&self) -> (r: ServiceConfig)
        ensures
            r == *self,
    {
        match self {
            ServiceConfig::DNS { path, listen, timeout } => ServiceConfig::DNS {
                path: path.clone(),
                listen: *listen,
                timeout: *timeout,
            },
            ServiceConfig::TCP { path, listen } => ServiceConfig::TCP {
                path: path.clone(),
                listen: *listen,
            },
        }
    }
}

impl PartialEq for ServiceConfig {
    fn eq(&self, other: &ServiceConfig) -> (r: bool) {
        match (self, other) {
            (
                ServiceConfig::DNS { path: a, listen: b, timeout: c },
                ServiceConfig::DNS { path: x, listen: y, timeout: z },
            ) => *a == *x && *b == *y && *c == *z,
            (
                ServiceConfig::TCP { path: a, listen: b },
                ServiceConfig::TCP { path: x, listen: y },
            ) => *a == *x && *b == *y,
            _ => false,
        }
    }
}

impl vstd::std_specs::cmp::PartialEqSpecImpl for ServiceConfig {
    open spec fn obeys_eq_spec() -> bool {
        true
    }

    open spec fn eq_spec(&self, other: &ServiceConfig) -> bool {
        match (self, other) {
            (
                ServiceConfig::DNS { path: a, listen: b, timeout: c },
                ServiceConfig::DNS { path: x, listen: y, timeout: z },
            ) => a@ == x@ && b == y && c == z,
            (
                ServiceConfig::TCP { path: a, listen: b },
                ServiceConfig::TCP { path: x, listen: y },
            ) => a@ == x@ && b == y,
            _ => false,
        }
    }
}

impl Eq for ServiceConfig {

}

/// The services of a sidecar.
pub struct Config {
    pub services: StringMap<ServiceConfig>,
}

impl config::Config for Config {
    type ServiceConfig = ServiceConfig;

    open spec fn services(&self) -> Map<Seq<char>, ServiceConfig> {
        self.services@
    }

    fn into_services(self) -> (services: StringMap<ServiceConfig>)
        ensures
            services == self.services,
    {
        proof {
            use_type_invariant(&self.services);
        }
        self.services
    }
}

/// Two services are configured alike exactly if they are of one kind and agree in everything:
/// the path, the address that they listen on, and for DNS the timeout.
pub proof fn equal_services_agree(a: ServiceConfig, b: ServiceConfig)
    ensures
        a matches ServiceConfig::DNS { path: p, listen: x, timeout: s } ==> (
        b matches ServiceConfig::DNS { path: q, listen: y, timeout: t } ==> (a.eq_spec(&b) <==> p@
            == q@ && x == y && s == t)),
        a matches ServiceConfig::TCP { path: p, listen: x } ==> (
        b matches ServiceConfig::TCP { path: q, listen: y } ==> (a.eq_spec(&b) <==> p@ == q@ && x
            == y)),
        a is DNS && b is TCP ==> !a.eq_spec(&b) && !b.eq_spec(&a),
{
}

/// After the steps of a reload each service of a sidecar runs under a configuration that says
/// what the new one says of it.
pub proof fn reload_puts_the_configuration_into_force(
    running: Map<Seq<char>, ServiceConfig>,
    names: Seq<Seq<char>>,
    updated: Seq<(Seq<char>, ServiceConfig)>,
    i: int,
)
    requires
        names.no_duplicates(),
        names.to_set() == running.dom(),
        distinct(updated),
        0 <= i < updated.len(),
    ensures
        ({
            let runs = after(
                running,
                update_steps(running, updated) + removal_steps(names, to_map(updated)),
            );
            &&& runs.contains_key(updated[i].0)
            &&& (runs[updated[i].0] is DNS <==> updated[i].1 is DNS)
            &&& runs[updated[i].0] matches ServiceConfig::DNS { path: p, listen: x, timeout: s }
                ==> updated[i].1 matches ServiceConfig::DNS { path: q, listen: y, timeout: t }
                && p@ == q@ && x == y && s == t
            &&& runs[updated[i].0] matches ServiceConfig::TCP { path: p, listen: x }
                ==> updated[i].1 matches ServiceConfig::TCP { path: q, listen: y } && p@ == q@ && x
                == y
        }),
{
    reload_gives_equal_configurations(running, names, updated, i);
}

} // verus!
