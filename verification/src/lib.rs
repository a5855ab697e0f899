//! The logic of a private Cargo registry: crate names and claims, the sparse
//! index, publish requests, and the order in which the registry's database,
//! tarball store and clients are dealt with.
//!
//! Nothing here reads or sends anything. Where a request takes several steps, the
//! library says what is to be done next and is told what came of it.

pub mod answer_laws;
pub mod crate_name;
pub mod database_laws;
pub mod digest;
pub mod error;
pub mod frame;
pub mod gate;
pub mod json;
pub mod listings;
pub mod name_laws;
pub mod publish;
pub mod publish_flow;
pub mod publish_laws;
pub mod registry;
pub mod repo;
pub mod request_laws;
pub mod routing;
pub mod schema;
pub mod search;
pub mod service_flow;
pub mod statements;
pub mod tables;
pub mod text;
pub mod version;
