//! Configurations: which services run, and how.
use vstd::prelude::*;

use crate::string_map::StringMap;

pub mod agent;
pub mod loader;
pub mod sidecar;

verus! {

/// A configuration that names services.
pub trait Config: Sized {
    /// How one service is configured.
    type ServiceConfig: PartialEq + Eq;

    /// The services by name.
    spec fn services(&self) -> Map<Seq<char>, Self::ServiceConfig>;

    /// The services by name.
    fn into_services(self) -> (services: StringMap<Self::ServiceConfig>)
        ensures
            services.wf(),
            services@ == self.services(),
    ;
}

} // verus!
