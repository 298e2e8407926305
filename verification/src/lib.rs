//! Bootstrap layer of a GraphQL-over-HTTP server: port binding, bind-failure
//! classification, per-connection handler construction, and the lifecycle
//! contract between the listening task and the shared query backend.

pub mod errors;
pub mod identity;
pub mod logging;
pub mod server;
pub mod text;
