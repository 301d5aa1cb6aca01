//! The decisions of a controller that runs an nginx gateway in a Kubernetes cluster: which
//! ingresses a gateway serves, which objects it needs, and in which order they are applied.

pub mod crd;
pub mod domain;
pub mod error;
pub mod error_laws;
pub mod ingress;
pub mod manifest_laws;
pub mod manifests;
pub mod objects;
pub mod operation_laws;
pub mod reconcile;
pub mod reconcile_laws;
pub mod routes;
pub mod routes_laws;
pub mod routing_laws;
pub mod string_map;
mod text;
pub mod view_laws;
