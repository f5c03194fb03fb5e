use vstd::prelude::*;
use crate::model::NamedNodeBuf;
use crate::negotiate::GraphFormat;
use crate::negotiate::QueryResultsFormat;

verus! {

// The store handle and the evaluator's types are opaque to the
// library: values of them are only carried through the gateway.
#[verifier::external_type_specification]
#[verifier::external_body]
pub struct ExMemoryStore(oxigraph::MemoryStore);

#[verifier::external_type_specification]
#[verifier::external_body]
pub struct ExQuery(oxigraph::sparql::Query);

#[verifier::external_type_specification]
#[verifier::external_body]
pub struct ExQueryResults(oxigraph::sparql::QueryResults);

#[verifier::external_type_specification]
#[verifier::external_body]
pub struct ExGraphName(oxigraph::model::GraphName);

#[verifier::external_type_specification]
#[verifier::external_body]
pub struct ExNamedOrBlankNode(oxigraph::model::NamedOrBlankNode);

/// Whether the query grammar accepts a text, parsed with no explicit
/// base. The grammar takes pages to state, so the predicate is left
/// abstract; `parse_query` decides it.
pub uninterp spec fn query_parses(s: Seq<char>) -> bool;

/// Relies on oxigraph's `Query::parse` with no base IRI: it succeeds
/// exactly on texts the SPARQL grammar accepts, and its failure text
/// names the grammar fault.
#[verifier::external_body]
pub(crate) fn parse_query(query: &str) -> (r: Result<oxigraph::sparql::Query, String>)
    ensures
        r is Ok <==> query_parses(query@),
{
    oxigraph::sparql::Query::parse(query, None).map_err(|e| e.to_string())
}

/// Relies on oxigraph's `NamedNode::new_unchecked` and its `GraphName`
/// conversion: wraps an already validated IRI as a graph name for the
/// default dataset.
#[verifier::external_body]
pub(crate) fn to_graph_name(iri: &NamedNodeBuf) -> oxigraph::model::GraphName {
    oxigraph::model::NamedNode::new_unchecked(iri.as_str().to_string()).into()
}

/// Relies on oxigraph's `NamedNode::new_unchecked` and its
/// `NamedOrBlankNode` conversion: wraps an already validated IRI as an
/// available named graph.
#[verifier::external_body]
pub(crate) fn to_named_or_blank(iri: &NamedNodeBuf) -> oxigraph::model::NamedOrBlankNode {
    oxigraph::model::NamedNode::new_unchecked(iri.as_str().to_string()).into()
}

/// Relies on `QueryDataset::set_default_graph`: replaces the query's
/// default dataset with the given graphs.
#[verifier::external_body]
pub(crate) fn set_default_graphs(
    query: &mut oxigraph::sparql::Query,
    graphs: Vec<oxigraph::model::GraphName>,
) {
    query.dataset_mut().set_default_graph(graphs)
}

/// Relies on `QueryDataset::set_available_named_graphs`: replaces the
/// query's available named graphs with the given ones.
#[verifier::external_body]
pub(crate) fn set_named_graphs(
    query: &mut oxigraph::sparql::Query,
    graphs: Vec<oxigraph::model::NamedOrBlankNode>,
) {
    query.dataset_mut().set_available_named_graphs(graphs)
}

/// Relies on `MemoryStore::query`: evaluates a parsed query against
/// the store's current snapshot, reading only. The outcome depends on
/// the store's contents, so nothing is promised of it.
#[verifier::external_body]
pub(crate) fn run_query(store: &oxigraph::MemoryStore, query: oxigraph::sparql::Query) -> Result<
    oxigraph::sparql::QueryResults,
    String,
> {
    store.query(query).map_err(|e| e.to_string())
}

/// The shape of a query's results; it decides which serializations are
/// offered.
#[derive(Clone, Copy)]
pub enum ResultsKind {
    Graph,
    Solutions,
    Boolean,
}

/// Relies on the `QueryResults` variants: tells a graph result apart
/// from solutions and boolean results.
#[verifier::external_body]
pub(crate) fn results_kind(results: &oxigraph::sparql::QueryResults) -> ResultsKind {
    match results {
        oxigraph::sparql::QueryResults::Graph(_) => ResultsKind::Graph,
        oxigraph::sparql::QueryResults::Solutions(_) => ResultsKind::Solutions,
        oxigraph::sparql::QueryResults::Boolean(_) => ResultsKind::Boolean,
    }
}

/// Relies on `QueryResults::write_graph` and oxigraph's graph
/// serializers: writes a graph result in the chosen format; it fails
/// on results of any other shape.
#[verifier::external_body]
pub(crate) fn write_graph_results(
    results: oxigraph::sparql::QueryResults,
    format: GraphFormat,
) -> Result<Vec<u8>, String> {
    let f = match format {
        GraphFormat::NTriples => oxigraph::io::GraphFormat::NTriples,
        GraphFormat::Turtle => oxigraph::io::GraphFormat::Turtle,
        GraphFormat::RdfXml => oxigraph::io::GraphFormat::RdfXml,
    };
    let mut body = Vec::new();
    results.write_graph(&mut body, f).map_err(|e| e.to_string())?;
    Ok(body)
}

/// Relies on `QueryResults::write` and oxigraph's results serializers:
/// writes a solutions or boolean result in the chosen format; the XML
/// and JSON writers refuse a graph result with an error, while the CSV
/// and TSV writers serialize one.
#[verifier::external_body]
pub(crate) fn write_solution_results(
    results: oxigraph::sparql::QueryResults,
    format: QueryResultsFormat,
) -> Result<Vec<u8>, String> {
    let f = match format {
        QueryResultsFormat::Xml => oxigraph::sparql::QueryResultsFormat::Xml,
        QueryResultsFormat::Json => oxigraph::sparql::QueryResultsFormat::Json,
        QueryResultsFormat::Csv => oxigraph::sparql::QueryResultsFormat::Csv,
        QueryResultsFormat::Tsv => oxigraph::sparql::QueryResultsFormat::Tsv,
    };
    let mut body = Vec::new();
    results.write(&mut body, f).map_err(|e| e.to_string())?;
    Ok(body)
}

} // verus!
