use oxiwiki::gateway::extract_query_params;
use oxiwiki::loader::{LoaderPolicy, LoaderStep, MAX_BACKOFF_MS, MAX_CONSECUTIVE_FAILURES};
use oxiwiki::negotiate::{
    negotiate_graph_format, negotiate_results_format, GraphFormat, QueryResultsFormat,
};
use oxiwiki::protocol::{RequestMethod, ResponseBody, ServiceError};
use oxiwiki::server::{complete_response, plan_request, RequestPlan};

#[test]
fn get_request_extracts_query_and_scope_lists_in_order() {
    let encoded =
        b"query=SELECT%20*%20WHERE%20%7B%3Fs%20%3Fp%20%3Fo%7D&default-graph-uri=http://g1&named-graph-uri=http://g2"
            .to_vec();
    let params = extract_query_params(&encoded, None).unwrap();
    assert_eq!(params.query, "SELECT * WHERE {?s ?p ?o}");
    assert_eq!(params.default_graph_uris, vec!["http://g1".to_string()]);
    assert_eq!(params.named_graph_uris, vec!["http://g2".to_string()]);
}

#[test]
fn repeated_scope_parameters_accumulate_in_arrival_order() {
    let encoded =
        b"default-graph-uri=http://g1&query=ASK%7B%7D&default-graph-uri=http://g2&unknown=zzz".to_vec();
    let params = extract_query_params(&encoded, None).unwrap();
    assert_eq!(params.query, "ASK{}");
    assert_eq!(
        params.default_graph_uris,
        vec!["http://g1".to_string(), "http://g2".to_string()]
    );
    assert!(params.named_graph_uris.is_empty());
}

#[test]
fn plus_decodes_to_space_in_form_values() {
    let encoded = b"query=ASK+%7B%7D".to_vec();
    let params = extract_query_params(&encoded, None).unwrap();
    assert_eq!(params.query, "ASK {}");
}

#[test]
fn multiple_query_parameters_are_refused() {
    let encoded = b"query=ASK%7B%7D&query=ASK2%7B%7D".to_vec();
    let err = extract_query_params(&encoded, None).unwrap_err();
    assert_eq!(err.status, 400);
    assert_eq!(err.message, "Multiple query parameters provided");
}

#[test]
fn body_query_plus_url_query_parameter_is_refused() {
    let encoded = b"query=ASK%7B%7D".to_vec();
    let err = extract_query_params(&encoded, Some("ASK {}".to_string())).unwrap_err();
    assert_eq!(err.status, 400);
    assert_eq!(err.message, "Multiple query parameters provided");
}

#[test]
fn missing_query_parameter_is_refused() {
    let encoded = b"default-graph-uri=http://g1".to_vec();
    let err = extract_query_params(&encoded, None).unwrap_err();
    assert_eq!(err.status, 400);
    assert_eq!(err.message, "You should set the 'query' parameter");
}

#[test]
fn get_on_query_path_reads_the_url() {
    let plan = plan_request(&"/query".to_string(), &RequestMethod::Get, &None).unwrap();
    assert_eq!(plan, RequestPlan::QueryFromUrl);
}

#[test]
fn post_without_content_type_is_a_bad_request() {
    let err = plan_request(&"/query".to_string(), &RequestMethod::Post, &None).unwrap_err();
    assert_eq!(err.status, 400);
    assert_eq!(err.message, "No Content-Type given");
}

#[test]
fn post_content_types_choose_the_body_reading() {
    let raw = plan_request(
        &"/query".to_string(),
        &RequestMethod::Post,
        &Some("application/sparql-query".to_string()),
    )
    .unwrap();
    assert_eq!(raw, RequestPlan::QueryFromRawBody);
    let form = plan_request(
        &"/query".to_string(),
        &RequestMethod::Post,
        &Some("application/x-www-form-urlencoded".to_string()),
    )
    .unwrap();
    assert_eq!(form, RequestPlan::QueryFromForm);
}

#[test]
fn unsupported_content_type_is_refused_with_415() {
    let err = plan_request(
        &"/query".to_string(),
        &RequestMethod::Post,
        &Some("text/plain".to_string()),
    )
    .unwrap_err();
    assert_eq!(err.status, 415);
    assert_eq!(err.message, "Not supported Content-Type given: text/plain");
}

#[test]
fn unknown_route_is_refused_with_404() {
    let err = plan_request(
        &"/other".to_string(),
        &RequestMethod::Other("PUT".to_string()),
        &None,
    )
    .unwrap_err();
    assert_eq!(err.status, 404);
    assert_eq!(err.message, "PUT /other is not supported by this server");
    let err = plan_request(&"/".to_string(), &RequestMethod::Get, &None).unwrap_err();
    assert_eq!(err.status, 404);
    assert_eq!(err.message, "GET / is not supported by this server");
}

#[test]
fn no_accept_header_selects_the_first_supported_format() {
    assert_eq!(negotiate_graph_format(&None).unwrap(), GraphFormat::NTriples);
    assert_eq!(
        negotiate_results_format(&None).unwrap(),
        QueryResultsFormat::Xml
    );
}

#[test]
fn accept_header_negotiates_the_named_format() {
    let turtle = negotiate_graph_format(&Some("text/turtle".to_string())).unwrap();
    assert_eq!(turtle, GraphFormat::Turtle);
    let json =
        negotiate_results_format(&Some("application/sparql-results+json".to_string())).unwrap();
    assert_eq!(json, QueryResultsFormat::Json);
}

#[test]
fn weighted_accept_header_prefers_the_heavier_format() {
    let accept = "application/rdf+xml;q=0.9, text/turtle;q=0.4".to_string();
    assert_eq!(
        negotiate_graph_format(&Some(accept)).unwrap(),
        GraphFormat::RdfXml
    );
}

#[test]
fn unmatchable_accept_header_fails_negotiation() {
    let err = negotiate_graph_format(&Some("application/pdf".to_string())).unwrap_err();
    assert_eq!(err.status, 406);
}

#[test]
fn media_type_lookup_handles_parameters_and_aliases() {
    assert_eq!(
        GraphFormat::from_media_type("text/turtle; charset=utf-8"),
        Some(GraphFormat::Turtle)
    );
    assert_eq!(
        GraphFormat::from_media_type(" application/xml "),
        Some(GraphFormat::RdfXml)
    );
    assert_eq!(GraphFormat::from_media_type("application/pdf"), None);
    assert_eq!(
        QueryResultsFormat::from_media_type("text/csv;charset=utf-8"),
        Some(QueryResultsFormat::Csv)
    );
    assert_eq!(
        QueryResultsFormat::from_media_type("text/json"),
        Some(QueryResultsFormat::Json)
    );
    assert_eq!(QueryResultsFormat::from_media_type("application/pdf"), None);
}

#[test]
fn media_types_round_trip_through_lookup() {
    for f in [GraphFormat::NTriples, GraphFormat::Turtle, GraphFormat::RdfXml] {
        assert_eq!(GraphFormat::from_media_type(f.media_type()), Some(f));
    }
    for f in [
        QueryResultsFormat::Xml,
        QueryResultsFormat::Json,
        QueryResultsFormat::Csv,
        QueryResultsFormat::Tsv,
    ] {
        assert_eq!(QueryResultsFormat::from_media_type(f.media_type()), Some(f));
    }
}

#[test]
fn failures_become_responses_with_the_server_header() {
    let resp = complete_response(Err(ServiceError {
        status: 404,
        message: "nothing here".to_string(),
    }));
    assert_eq!(resp.status, 404);
    assert!(matches!(resp.body, ResponseBody::Text(t) if t == "nothing here"));
    assert_eq!(resp.server, Some("oxiwiki".to_string()));
}

#[test]
fn body_cap_is_one_mebibyte() {
    assert_eq!(oxiwiki::MAX_BODY_SIZE, 1_048_576);
}

#[test]
fn loader_policy_backs_off_and_resets() {
    let mut policy = LoaderPolicy::new(10_000);
    assert_eq!(policy.on_failure(), LoaderStep::Continue { delay_ms: 20_000 });
    assert_eq!(policy.on_failure(), LoaderStep::Continue { delay_ms: 40_000 });
    assert_eq!(policy.on_success(), LoaderStep::Continue { delay_ms: 10_000 });
    assert_eq!(policy.consecutive_failures, 0);
    assert_eq!(policy.current_delay_ms, 10_000);
}

#[test]
fn loader_policy_delay_saturates_at_the_cap() {
    let mut policy = LoaderPolicy::new(500_000);
    assert_eq!(
        policy.on_failure(),
        LoaderStep::Continue { delay_ms: MAX_BACKOFF_MS }
    );
    assert_eq!(
        policy.on_failure(),
        LoaderStep::Continue { delay_ms: MAX_BACKOFF_MS }
    );
}

#[test]
fn loader_policy_gives_up_after_too_many_failures() {
    let mut policy = LoaderPolicy::new(1_000);
    for _ in 0..(MAX_CONSECUTIVE_FAILURES - 1) {
        assert!(matches!(policy.on_failure(), LoaderStep::Continue { .. }));
    }
    assert_eq!(policy.on_failure(), LoaderStep::GiveUp);
}
