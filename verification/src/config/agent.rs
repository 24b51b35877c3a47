//! The configuration of an agent, the side that reaches the network.
use vstd::prelude::*;
use vstd::std_specs::cmp::PartialEqSpec;

use crate::config;
use crate::dns::forwarder;
use crate::service::{
    after, reload_gives_equal_configurations, removal_steps, update_steps,
};
use crate::string_map::{distinct, to_map, StringMap};
use crate::tcp;

verus! {

/// A service of an agent.
#[allow(inconsistent_fields)]
#[derive(Debug)]
pub enum ServiceConfig {
    /// Answers DNS requests from a local socket, with the answers of a DNS server.
    DNS { path: String, address: forwarder::Address, timeout: u64 },
    /// Carries connections to a local socket on to a TCP endpoint.
    TCP { path: String, address: tcp::Address },
}

impl Clone for ServiceConfig {
    fn clone(&self) -> (r: ServiceConfig)
        ensures
            r == *self,
    {
        match self {
            ServiceConfig::DNS { path, address, timeout } => ServiceConfig::DNS {
                path: path.clone(),
                address: address.clone(),
                timeout: *timeout,
            },
            ServiceConfig::TCP { path, address } => ServiceConfig::TCP {
                path: path.clone(),
                address: address.clone(),
            },
        }
    }
}

impl PartialEq for ServiceConfig {
    fn eq(&self, other: &ServiceConfig) -> (r: bool) {
        match (self, other) {
            (
                ServiceConfig::DNS { path: a, address: b, timeout: c },
                ServiceConfig::DNS { path: x, address: y, timeout: z },
            ) => *a == *x && *b == *y && *c == *z,
            (
                ServiceConfig::TCP { path: a, address: b },
                ServiceConfig::TCP { path: x, address: y },
            ) => *a == *x && *b == *y,
            _ => false,
        }
    }
}

impl vstd::std_specs::cmp::PartialEqSpecImpl for ServiceConfig {
    open spec fn obeys_eq_spec() -> bool {
        true
    }

    open spec fn eq_spec(&self, other: &ServiceConfig) -> bool {
        match (self, other) {
            (
                ServiceConfig::DNS { path: a, address: b, timeout: c },
                ServiceConfig::DNS { path: x, address: y, timeout: z },
            ) => a@ == x@ && b@ == y@ && c == z,
            (
                ServiceConfig::TCP { path: a, address: b },
                ServiceConfig::TCP { path: x, address: y },
            ) => a@ == x@ && b@ == y@,
            _ => false,
        }
    }
}

impl Eq for ServiceConfig {

}

/// The services of an agent.
pub struct Config {
    pub services: StringMap<ServiceConfig>,
}

impl config::Config for Config {
    type ServiceConfig = ServiceConfig;

    open spec fn services(&self) -> Map<Seq<char>, ServiceConfig> {
        self.services@
    }

    fn into_services(self) -> (services: StringMap<ServiceConfig>)
        ensures
            services == self.services,
    {
        proof {
            use_type_invariant(&self.services);
        }
        self.services
    }
}

/// The path of a service.
pub open spec fn service_path(service: ServiceConfig) -> Seq<char> {
    match service {
        ServiceConfig::DNS { path, address, timeout } => path@,
        ServiceConfig::TCP { path, address } => path@,
    }
}

/// Two services are configured alike exactly if they are of one kind and agree in everything:
/// for DNS the path, how, where and at which port the server is asked, and the timeout; for TCP
/// the path, the host and the port.
pub proof fn equal_services_agree(a: ServiceConfig, b: ServiceConfig)
    ensures
        a.eq_spec(&b) ==> (a is DNS <==> b is DNS) && service_path(a) == service_path(b),
        a matches ServiceConfig::DNS { path: p, address: x, timeout: s } ==> (
        b matches ServiceConfig::DNS { path: q, address: y, timeout: t } ==> (a.eq_spec(&b)
            <==> p@ == q@ && (x is Tcp <==> y is Tcp) && forwarder::address_host(x)
            == forwarder::address_host(y) && forwarder::address_port(x) == forwarder::address_port(y)
            && s == t)),
        a matches ServiceConfig::TCP { path: p, address: x } ==> (
        b matches ServiceConfig::TCP { path: q, address: y } ==> (a.eq_spec(&b) <==> p@ == q@
            && x.host@ == y.host@ && x.port == y.port)),
        a is DNS && b is TCP ==> !a.eq_spec(&b) && !b.eq_spec(&a),
{
}

/// After the steps of a reload each service of an agent runs under a configuration that says
/// what the new one says of it.
pub proof fn reload_puts_the_configuration_into_force(
    running: Map<Seq<char>, ServiceConfig>,
    names: Seq<Seq<char>>,
    updated: Seq<(Seq<char>, ServiceConfig)>,
    i: int,
)
    requires
        names.no_duplicates(),
        names.to_set() == running.dom(),
        distinct(updated),
        0 <= i < updated.len(),
    ensures
        ({
            let runs = after(
                running,
                update_steps(running, updated) + removal_steps(names, to_map(updated)),
            );
            &&& runs.contains_key(updated[i].0)
            &&& (runs[updated[i].0] is DNS <==> updated[i].1 is DNS)
            &&& service_path(runs[updated[i].0]) == service_path(updated[i].1)
            &&& runs[updated[i].0] matches ServiceConfig::DNS { path: p, address: x, timeout: s }
                ==> updated[i].1 matches ServiceConfig::DNS { path: q, address: y, timeout: t }
                && p@ == q@ && (x is Tcp <==> y is Tcp) && forwarder::address_host(x)
                == forwarder::address_host(y) && forwarder::address_port(x)
                == forwarder::address_port(y) && s == t
            &&& runs[updated[i].0] matches ServiceConfig::TCP { path: p, address: x }
                ==> updated[i].1 matches ServiceConfig::TCP { path: q, address: y } && p@ == q@
                && x.host@ == y.host@ && x.port == y.port
        }),
{
    reload_gives_equal_configurations(running, names, updated, i);
}

} // verus!
