//! A SPARQL query gateway over a shared RDF store that a background
//! loader keeps synchronized with an external knowledge base.
//!
//! The library holds the protocol-layer machinery with its contracts:
//! validated IRI identifiers (`model`, `vocab`), the text-escape codec
//! (`escape`), the byte codec for stored integers (`bytes`),
//! query-protocol parameter extraction across its encodings
//! (`gateway`), content negotiation (`negotiate`), routing and
//! response assembly (`protocol`, `server`), the retry policy of the
//! background update loop (`loader`), and the trusted boundary to the
//! store and its evaluator (`store`).

use vstd::prelude::*;

pub mod bytes;
pub mod escape;
pub mod gateway;
pub mod loader;
pub mod model;
pub mod negotiate;
pub mod protocol;
pub mod server;
pub mod store;
pub mod vocab;

verus! {

/// Hard cap on the number of request-body bytes read for one request.
pub const MAX_BODY_SIZE: u64 = 1048576;

} // verus!
