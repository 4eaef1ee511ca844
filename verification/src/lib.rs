//! Idempotent reconciliation of remote resources.
//!
//! The activities of a workflow engine run at least once: a create, an
//! allocation or a delete that the remote side does not make idempotent may
//! be repeated after a crash. This library holds the decisions that make
//! such operations safe to repeat, and nothing that performs them: a caller
//! sends the request that the library names and hands back status and body.
//!
//! - [`fly`]: the provider's control plane. Machine creation recovers the
//!   machine that already holds a name, IP allocation releases what earlier
//!   attempts leaked, and an app is put only where its name is free or
//!   already belongs to the organization that asks.
//! - [`docker`]: the container runtime's command line, with the same care
//!   for containers, networks and volumes.
//! - [`executions`]: the client side of the engine's own execution API.
//!
//! Nothing is kept between two calls: what an operation knows of earlier
//! attempts comes from its caller.

pub mod docker;
pub mod error;
pub mod executions;
pub mod fly;
pub mod http;
pub mod json;
pub mod protocol;
pub mod slug;
pub mod text;
pub mod wire;
