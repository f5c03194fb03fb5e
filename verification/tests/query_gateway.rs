use oxigraph::model::{NamedNode, Quad};
use oxigraph::MemoryStore;
use oxiwiki::gateway::{configure_and_evaluate_sparql_query, evaluate_sparql_query};
use oxiwiki::protocol::ResponseBody;

fn store_with_one_triple() -> MemoryStore {
    let store = MemoryStore::new();
    let ex = NamedNode::new("http://example.com").unwrap();
    store.insert(Quad::new(ex.clone(), ex.clone(), ex, None));
    store
}

fn body_text(body: &ResponseBody) -> String {
    match body {
        ResponseBody::Data(d) => String::from_utf8(d.clone()).unwrap(),
        ResponseBody::Text(t) => t.clone(),
    }
}

#[test]
fn select_query_answers_xml_by_default() {
    let store = store_with_one_triple();
    let encoded = b"query=SELECT%20*%20WHERE%20%7B%20%3Fs%20%3Fp%20%3Fo%20%7D".to_vec();
    let resp = configure_and_evaluate_sparql_query(&store, encoded, None, None).unwrap();
    assert_eq!(resp.status, 200);
    assert_eq!(
        resp.content_type,
        Some("application/sparql-results+xml".to_string())
    );
    assert!(body_text(&resp.body).contains("http://example.com"));
}

#[test]
fn ask_query_negotiates_json() {
    let store = store_with_one_triple();
    let encoded = b"query=ASK%20%7B%20%3Fs%20%3Fp%20%3Fo%20%7D".to_vec();
    let resp = configure_and_evaluate_sparql_query(
        &store,
        encoded,
        None,
        Some("application/sparql-results+json".to_string()),
    )
    .unwrap();
    assert_eq!(
        resp.content_type,
        Some("application/sparql-results+json".to_string())
    );
    assert!(body_text(&resp.body).contains("true"));
}

#[test]
fn construct_query_answers_ntriples_by_default() {
    let store = store_with_one_triple();
    let resp = evaluate_sparql_query(
        &store,
        "CONSTRUCT WHERE { ?s ?p ?o }".to_string(),
        Vec::new(),
        Vec::new(),
        &None,
    )
    .unwrap();
    assert_eq!(resp.status, 200);
    assert_eq!(resp.content_type, Some("application/n-triples".to_string()));
    assert_eq!(
        body_text(&resp.body),
        "<http://example.com> <http://example.com> <http://example.com> .\n"
    );
}

#[test]
fn construct_query_negotiates_turtle() {
    let store = store_with_one_triple();
    let resp = evaluate_sparql_query(
        &store,
        "CONSTRUCT WHERE { ?s ?p ?o }".to_string(),
        Vec::new(),
        Vec::new(),
        &Some("text/turtle".to_string()),
    )
    .unwrap();
    assert_eq!(resp.content_type, Some("text/turtle".to_string()));
}

#[test]
fn malformed_query_is_a_bad_request() {
    let store = MemoryStore::new();
    let err = evaluate_sparql_query(
        &store,
        "SELECT WHERE".to_string(),
        Vec::new(),
        Vec::new(),
        &None,
    )
    .unwrap_err();
    assert_eq!(err.status, 400);
    assert!(!err.message.is_empty());
}

#[test]
fn invalid_scope_identifier_is_a_bad_request() {
    let store = MemoryStore::new();
    let err = evaluate_sparql_query(
        &store,
        "ASK { ?s ?p ?o }".to_string(),
        vec!["not an iri".to_string()],
        Vec::new(),
        &None,
    )
    .unwrap_err();
    assert_eq!(err.status, 400);
    let err = evaluate_sparql_query(
        &store,
        "ASK { ?s ?p ?o }".to_string(),
        Vec::new(),
        vec!["also bad".to_string()],
        &None,
    )
    .unwrap_err();
    assert_eq!(err.status, 400);
}

#[test]
fn scope_lists_narrow_the_dataset() {
    let store = MemoryStore::new();
    let g = NamedNode::new("http://example.com/g").unwrap();
    let ex = NamedNode::new("http://example.com").unwrap();
    store.insert(Quad::new(ex.clone(), ex.clone(), ex.clone(), g));
    store.insert(Quad::new(ex.clone(), ex.clone(), ex, None));
    let count_query = "SELECT (COUNT(*) AS ?c) WHERE { ?s ?p ?o }".to_string();
    let scoped = evaluate_sparql_query(
        &store,
        count_query.clone(),
        vec!["http://example.com/g".to_string()],
        Vec::new(),
        &Some("text/csv; charset=utf-8".to_string()),
    )
    .unwrap();
    assert!(body_text(&scoped.body).contains('1'));
}
