//! Ready-to-use identifiers for the basic RDF vocabularies, built once
//! per call and immutable for their lifetime.

pub mod rdf;
pub mod rdfs;
pub mod xsd;
