use vstd::prelude::*;
use vstd::string::*;
use crate::model::str_eq;
use crate::model::NamedNodeBuf;
use crate::model::iri_ok;
use vstd::utf8::is_ascii_chars;
use crate::negotiate::GraphFormat;
use crate::negotiate::QueryResultsFormat;
use crate::negotiate::accept_negotiation;
use crate::negotiate::graph_media_type;
use crate::negotiate::graph_supported;
use crate::negotiate::results_supported;
use crate::negotiate::spec_graph_format_from;
use crate::negotiate::spec_results_format_from;
use crate::negotiate::negotiate_graph_format;
use crate::negotiate::negotiate_results_format;
use crate::negotiate::results_media_type;
use crate::protocol::HttpResponse;
use crate::protocol::ServiceError;
use crate::protocol::bad_request;
use crate::protocol::success_response;
use crate::store::ResultsKind;
use crate::store::parse_query;
use crate::store::query_parses;
use crate::store::results_kind;
use crate::store::run_query;
use crate::store::set_default_graphs;
use crate::store::set_named_graphs;
use crate::store::to_graph_name;
use crate::store::to_named_or_blank;
use crate::store::write_graph_results;
use crate::store::write_solution_results;

verus! {

/// What the form-encoded decoder yields for a byte string: the decoded
/// key/value pairs, in order. Percent-decoding takes pages to state, so
/// the pairs are left abstract; `parse_form` computes them.
pub uninterp spec fn form_pairs(input: Seq<u8>) -> Seq<(Seq<char>, Seq<char>)>;

/// Relies on `form_urlencoded::parse` from the url crate: it splits the
/// input on '&', splits each non-empty piece on its first '=', and
/// percent-decodes each key and value ('+' read as space), keeping the
/// pairs in their order of appearance.
#[verifier::external_body]
fn parse_form(input: &Vec<u8>) -> (r: Vec<(String, String)>)
    ensures
        r.deep_view() == form_pairs(input@),
{
    url::form_urlencoded::parse(input).into_owned().collect()
}

/// The outcome of walking the protocol parameters: the collected
/// values, or the fault of a repeated query parameter.
pub enum ParamScan {
    Collected { query: Option<Seq<char>>, defaults: Seq<Seq<char>>, named: Seq<Seq<char>> },
    DuplicateQuery,
}

/// Folds the key/value pairs into the query text and the two
/// graph-scope lists: exactly one `query` is allowed, repeated
/// `default-graph-uri` and `named-graph-uri` accumulate in order, and
/// unrecognized keys are ignored.
pub open spec fn scan_params(
    pairs: Seq<(Seq<char>, Seq<char>)>,
    query: Option<Seq<char>>,
    defaults: Seq<Seq<char>>,
    named: Seq<Seq<char>>,
) -> ParamScan
    decreases pairs.len(),
{
    if pairs.len() == 0 {
        ParamScan::Collected { query, defaults, named }
    } else {
        let k = pairs[0].0;
        let v = pairs[0].1;
        if k == "query"@ {
            if query is Some {
                ParamScan::DuplicateQuery
            } else {
                scan_params(pairs.drop_first(), Some(v), defaults, named)
            }
        } else if k == "default-graph-uri"@ {
            scan_params(pairs.drop_first(), query, defaults.push(v), named)
        } else if k == "named-graph-uri"@ {
            scan_params(pairs.drop_first(), query, defaults, named.push(v))
        } else {
            scan_params(pairs.drop_first(), query, defaults, named)
        }
    }
}

/// A query-protocol request after extraction: the query text and the
/// two graph-scope lists, in arrival order.
#[derive(Debug)]
pub struct QueryParams {
    pub query: String,
    pub default_graph_uris: Vec<String>,
    pub named_graph_uris: Vec<String>,
}

/// Collects the query text and graph-scope lists from decoded
/// key/value pairs, on top of a query text that may already have been
/// taken from the request body. A second query text is refused, and a
/// missing one is refused, each with its own client-fault message.
pub fn collect_query_params(pairs: Vec<(String, String)>, query: Option<String>) -> (r: Result<
    QueryParams,
    ServiceError,
>)
    ensures
        ({
            let out = scan_params(
                pairs.deep_view(),
                query.deep_view(),
                Seq::empty(),
                Seq::empty(),
            );
            match r {
                Ok(p) => out matches ParamScan::Collected { query: q, defaults, named } && q
                    == Some(p.query@) && p.default_graph_uris.deep_view() == defaults
                    && p.named_graph_uris.deep_view() == named,
                Err(e) => (out is DuplicateQuery && e.status == 400 && e.message@
                    == "Multiple query parameters provided"@) || (out matches ParamScan::Collected {
                    query: q,
                    ..
                } && q is None && e.status == 400 && e.message@
                    == "You should set the 'query' parameter"@),
            }
        }),
{
    let ghost pairs0 = pairs.deep_view();
    let ghost q0 = query.deep_view();
    let mut q: Option<String> = match &query {
        Some(s) => Some(s.clone()),
        None => None,
    };
    let mut defaults: Vec<String> = Vec::new();
    let mut named: Vec<String> = Vec::new();
    let n = pairs.len();
    let mut i: usize = 0;
    proof {
        assert(pairs0.skip(0) =~= pairs0);
        assert(defaults.deep_view() =~= Seq::<Seq<char>>::empty());
        assert(named.deep_view() =~= Seq::<Seq<char>>::empty());
    }
    while i < n
        invariant
            i <= n,
            n == pairs.len(),
            pairs.deep_view() == pairs0,
            query.deep_view() == q0,
            scan_params(pairs0.skip(i as int), q.deep_view(), defaults.deep_view(), named.deep_view())
                == scan_params(pairs0, q0, Seq::empty(), Seq::empty()),
        decreases n - i,
    {
        proof {
            assert(pairs0[i as int] == (pairs[i as int].0@, pairs[i as int].1@));
            assert(pairs0.skip(i as int)[0] == pairs0[i as int]);
            assert(pairs0.skip(i as int).drop_first() =~= pairs0.skip(i + 1));
        }
        let ghost qpre = q.deep_view();
        let ghost dpre = defaults.deep_view();
        let ghost npre = named.deep_view();
        let (k, v) = (&pairs[i].0, &pairs[i].1);
        if str_eq(k.as_str(), "query") {
            if q.is_some() {
                proof {
                    assert(q.deep_view() is Some);
                    assert(scan_params(
                        pairs0.skip(i as int),
                        q.deep_view(),
                        defaults.deep_view(),
                        named.deep_view(),
                    ) == ParamScan::DuplicateQuery);
                }
                return Err(bad_request(String::from_str("Multiple query parameters provided")));
            }
            q = Some(v.clone());
            proof {
                assert(scan_params(pairs0.skip(i as int), qpre, dpre, npre) == scan_params(
                    pairs0.skip(i + 1),
                    q.deep_view(),
                    dpre,
                    npre,
                ));
            }
        } else if str_eq(k.as_str(), "default-graph-uri") {
            defaults.push(v.clone());
            proof {
                assert(defaults.deep_view() =~= dpre.push(pairs0[i as int].1));
                assert(scan_params(pairs0.skip(i as int), qpre, dpre, npre) == scan_params(
                    pairs0.skip(i + 1),
                    qpre,
                    defaults.deep_view(),
                    npre,
                ));
            }
        } else if str_eq(k.as_str(), "named-graph-uri") {
            named.push(v.clone());
            proof {
                assert(named.deep_view() =~= npre.push(pairs0[i as int].1));
                assert(scan_params(pairs0.skip(i as int), qpre, dpre, npre) == scan_params(
                    pairs0.skip(i + 1),
                    qpre,
                    dpre,
                    named.deep_view(),
                ));
            }
        }
        i = i + 1;
    }
    proof {
        assert(pairs0.skip(n as int) =~= Seq::<(Seq<char>, Seq<char>)>::empty());
    }
    match q {
        Some(query) => Ok(QueryParams { query, default_graph_uris: defaults, named_graph_uris: named }),
        None => Err(bad_request(String::from_str("You should set the 'query' parameter"))),
    }
}

/// Extracts the query text and graph scope from a request's encoded
/// parameters: the pairs come from the form-encoded bytes (a request
/// body, or a URL query string), and the query text may instead have
/// arrived as the raw request body.
pub fn extract_query_params(encoded: &Vec<u8>, query: Option<String>) -> (r: Result<
    QueryParams,
    ServiceError,
>)
    ensures
        ({
            let out = scan_params(
                form_pairs(encoded@),
                query.deep_view(),
                Seq::empty(),
                Seq::empty(),
            );
            match r {
                Ok(p) => out matches ParamScan::Collected { query: q, defaults, named } && q
                    == Some(p.query@) && p.default_graph_uris.deep_view() == defaults
                    && p.named_graph_uris.deep_view() == named,
                Err(e) => (out is DuplicateQuery && e.status == 400 && e.message@
                    == "Multiple query parameters provided"@) || (out matches ParamScan::Collected {
                    query: q,
                    ..
                } && q is None && e.status == 400 && e.message@
                    == "You should set the 'query' parameter"@),
            }
        }),
{
    let pairs = parse_form(encoded);
    collect_query_params(pairs, query)
}

/// Whether every string in the list is a valid absolute IRI.
pub open spec fn all_iris_ok(l: Seq<Seq<char>>) -> bool {
    forall|i: int| 0 <= i < l.len() ==> iri_ok(l[i])
}

/// Validates a list of graph-scope identifiers: succeeds exactly when
/// every entry is a valid absolute IRI, keeping their order and text;
/// the first invalid entry is refused as a client fault.
pub fn validate_graph_uris(uris: &Vec<String>) -> (r: Result<Vec<NamedNodeBuf>, ServiceError>)
    ensures
        r is Ok <==> all_iris_ok(uris.deep_view()),
        r matches Ok(nodes) ==> nodes@.len() == uris@.len() && (forall|i: int|
            0 <= i < nodes@.len() ==> nodes@[i]@ == uris.deep_view()[i] && nodes@[i].wf()),
        r matches Err(e) ==> e.status == 400,
{
    let mut nodes: Vec<NamedNodeBuf> = Vec::new();
    let n = uris.len();
    let mut i: usize = 0;
    while i < n
        invariant
            i <= n,
            n == uris.len(),
            nodes@.len() == i,
            forall|j: int| 0 <= j < i ==> nodes@[j]@ == uris.deep_view()[j] && nodes@[j].wf(),
            forall|j: int| 0 <= j < i ==> iri_ok(uris.deep_view()[j]),
        decreases n - i,
    {
        proof {
            assert(uris.deep_view()[i as int] == uris@[i as int]@);
        }
        match NamedNodeBuf::parse(uris[i].clone()) {
            Ok(node) => {
                nodes.push(node);
                proof {
                    assert(nodes@[i as int]@ == uris.deep_view()[i as int]);
                    assert(forall|j: int| 0 <= j < i ==> nodes@[j] == nodes@.drop_last()[j]);
                }
            }
            Err(e) => {
                return Err(bad_request(e.into_message()));
            }
        }
        i = i + 1;
    }
    Ok(nodes)
}

/// Evaluates one extracted query-protocol request against the store:
/// parses the query text, validates and applies the graph scope,
/// executes the query read-only, negotiates the serialization from the
/// result's shape, and serializes. Grammar and identifier faults are
/// client faults; store and serializer failures are server faults.
/// Whether the outcome is a server-side fault: a failure answered
/// with status 500 (a store or serializer failure).
pub open spec fn server_fault(r: Result<HttpResponse, ServiceError>) -> bool {
    r matches Err(e) && e.status == 500
}

/// What the gateway owes once a result of graph shape is in hand and
/// the client sent accept-preferences: success when the negotiation
/// picks a known graph format, the configuration fault when it picks
/// an unknown one, and the negotiation failure's own status otherwise.
pub open spec fn graph_accept_outcome(r: Result<HttpResponse, ServiceError>, h: Seq<char>) -> bool {
    match accept_negotiation(h, graph_supported()) {
        Ok(mt) => (match spec_graph_format_from(mt) {
            Some(_) => r is Ok,
            None => r matches Err(e) && e.status == 500 && e.message@ == "Unknown mime type"@,
        }),
        Err((st, m)) => r matches Err(e) && e.status == st && e.message@ == m,
    }
}

/// The counterpart of `graph_accept_outcome` for solutions- and
/// boolean-shaped results.
pub open spec fn results_accept_outcome(
    r: Result<HttpResponse, ServiceError>,
    h: Seq<char>,
) -> bool {
    match accept_negotiation(h, results_supported()) {
        Ok(mt) => (match spec_results_format_from(mt) {
            Some(_) => r is Ok,
            None => r matches Err(e) && e.status == 500 && e.message@ == "Unknown mime type"@,
        }),
        Err((st, m)) => r matches Err(e) && e.status == st && e.message@ == m,
    }
}

/// What the gateway owes after a request that passed the grammar and
/// identifier checks: without accept-preferences it succeeds or fails
/// as a server fault, and with them the outcome follows the
/// negotiation over the list of the result's shape; which shape the
/// store returned is not visible here, so both are admitted; a store
/// or serializer failure surfaces as a server fault either way.
pub open spec fn evaluation_outcome(
    r: Result<HttpResponse, ServiceError>,
    accept: Option<Seq<char>>,
) -> bool {
    match accept {
        None => r is Ok || server_fault(r),
        Some(h) => server_fault(r) || ({
            if !is_ascii_chars(h) {
                r matches Err(e) && e.status == 400
            } else {
                graph_accept_outcome(r, h) || results_accept_outcome(r, h)
            }
        }),
    }
}

/// The content type a successful response is allowed to carry: with no
/// accept-preferences one of the two per-shape defaults (the first
/// entry of either supported list), and otherwise the media type of
/// the format the negotiation picked over one of the two lists.
pub open spec fn negotiated_content_type(ct: Seq<char>, accept: Option<Seq<char>>) -> bool {
    match accept {
        None => ct == graph_media_type(GraphFormat::NTriples) || ct == results_media_type(
            QueryResultsFormat::Xml,
        ),
        Some(h) => (match accept_negotiation(h, graph_supported()) {
            Ok(mt) => spec_graph_format_from(mt) matches Some(f) && ct == graph_media_type(f),
            Err(_) => false,
        }) || (match accept_negotiation(h, results_supported()) {
            Ok(mt) => spec_results_format_from(mt) matches Some(f) && ct == results_media_type(f),
            Err(_) => false,
        }),
    }
}

pub fn evaluate_sparql_query(
    store: &oxigraph::MemoryStore,
    query: String,
    default_graph_uris: Vec<String>,
    named_graph_uris: Vec<String>,
    accept: &Option<String>,
) -> (r: Result<HttpResponse, ServiceError>)
    ensures
        !query_parses(query@) ==> (r matches Err(e) && e.status == 400),
        query_parses(query@) && !all_iris_ok(default_graph_uris.deep_view()) ==> (r matches Err(e)
            && e.status == 400),
        query_parses(query@) && all_iris_ok(default_graph_uris.deep_view()) && !all_iris_ok(
            named_graph_uris.deep_view(),
        ) ==> (r matches Err(e) && e.status == 400),
        query_parses(query@) && all_iris_ok(default_graph_uris.deep_view()) && all_iris_ok(
            named_graph_uris.deep_view(),
        ) ==> evaluation_outcome(r, accept.deep_view()),
        r matches Ok(resp) ==> resp.status == 200 && resp.server is None && resp.body is Data && (
        resp.content_type matches Some(ct) && negotiated_content_type(ct@, accept.deep_view())),
{
    let mut parsed = match parse_query(query.as_str()) {
        Ok(pq) => pq,
        Err(m) => {
            return Err(bad_request(m));
        }
    };
    let defaults = match validate_graph_uris(&default_graph_uris) {
        Ok(v) => v,
        Err(e) => {
            return Err(e);
        }
    };
    let named = match validate_graph_uris(&named_graph_uris) {
        Ok(v) => v,
        Err(e) => {
            return Err(e);
        }
    };
    if defaults.len() > 0 || named.len() > 0 {
        let mut graphs: Vec<oxigraph::model::GraphName> = Vec::new();
        let mut i: usize = 0;
        while i < defaults.len()
            decreases defaults.len() - i,
        {
            graphs.push(to_graph_name(&defaults[i]));
            i = i + 1;
        }
        let mut named_graphs: Vec<oxigraph::model::NamedOrBlankNode> = Vec::new();
        let mut j: usize = 0;
        while j < named.len()
            decreases named.len() - j,
        {
            named_graphs.push(to_named_or_blank(&named[j]));
            j = j + 1;
        }
        set_default_graphs(&mut parsed, graphs);
        set_named_graphs(&mut parsed, named_graphs);
    }
    let results = match run_query(store, parsed) {
        Ok(res) => res,
        Err(m) => {
            return Err(ServiceError { status: 500, message: m });
        }
    };
    match results_kind(&results) {
        ResultsKind::Graph => {
            let format = match negotiate_graph_format(accept) {
                Ok(f) => f,
                Err(e) => {
                    return Err(e);
                }
            };
            match write_graph_results(results, format) {
                Ok(body) => {
                    let resp = success_response(body, String::from_str(format.media_type()));
                    proof {
                        assert(resp.content_type->0@ == graph_media_type(format));
                    }
                    Ok(resp)
                }
                Err(m) => Err(ServiceError { status: 500, message: m }),
            }
        }
        _ => {
            let format = match negotiate_results_format(accept) {
                Ok(f) => f,
                Err(e) => {
                    return Err(e);
                }
            };
            match write_solution_results(results, format) {
                Ok(body) => {
                    let resp = success_response(body, String::from_str(format.media_type()));
                    proof {
                        assert(resp.content_type->0@ == results_media_type(format));
                    }
                    Ok(resp)
                }
                Err(m) => Err(ServiceError { status: 500, message: m }),
            }
        }
    }
}

/// Runs one request end to end from its encoded parameters: extracts
/// the query text and graph scope, then evaluates against the store.
/// Every extraction fault answers exactly as `extract_query_params`
/// decides; a successful answer is a 200 with the negotiated format.
pub fn configure_and_evaluate_sparql_query(
    store: &oxigraph::MemoryStore,
    encoded: Vec<u8>,
    query: Option<String>,
    accept: Option<String>,
) -> (r: Result<HttpResponse, ServiceError>)
    ensures
        ({
            let out = scan_params(
                form_pairs(encoded@),
                query.deep_view(),
                Seq::empty(),
                Seq::empty(),
            );
            match out {
                ParamScan::DuplicateQuery => r matches Err(e) && e.status == 400 && e.message@
                    == "Multiple query parameters provided"@,
                ParamScan::Collected { query: q, defaults, named } => (match q {
                    None => r matches Err(e) && e.status == 400 && e.message@
                        == "You should set the 'query' parameter"@,
                    Some(qt) => (!query_parses(qt) ==> (r matches Err(e) && e.status == 400)) && (
                    query_parses(qt) && !all_iris_ok(defaults) ==> (r matches Err(e) && e.status
                        == 400)) && (query_parses(qt) && all_iris_ok(defaults) && !all_iris_ok(
                        named,
                    ) ==> (r matches Err(e) && e.status == 400)) && (query_parses(qt)
                        && all_iris_ok(defaults) && all_iris_ok(named) ==> evaluation_outcome(
                        r,
                        accept.deep_view(),
                    )),
                }),
            }
        }),
        r matches Ok(resp) ==> resp.status == 200 && resp.server is None && resp.body is Data && (
        resp.content_type matches Some(ct) && negotiated_content_type(ct@, accept.deep_view())),
{
    match extract_query_params(&encoded, query) {
        Ok(p) => evaluate_sparql_query(
            store,
            p.query,
            p.default_graph_uris,
            p.named_graph_uris,
            &accept,
        ),
        Err(e) => Err(e),
    }
}

/// A parameter list carrying one query text, then one default-graph
/// entry, then one named-graph entry collects into exactly those three
/// values: the query text plus two single-element scope lists, in
/// arrival order.
pub proof fn lemma_scan_three_params(qt: Seq<char>, d: Seq<char>, ng: Seq<char>)
    ensures
        scan_params(
            seq![("query"@, qt), ("default-graph-uri"@, d), ("named-graph-uri"@, ng)],
            None,
            Seq::empty(),
            Seq::empty(),
        ) == (ParamScan::Collected { query: Some(qt), defaults: seq![d], named: seq![ng] }),
{
    reveal_strlit("query");
    reveal_strlit("default-graph-uri");
    reveal_strlit("named-graph-uri");
    let p = seq![("query"@, qt), ("default-graph-uri"@, d), ("named-graph-uri"@, ng)];
    assert(p.drop_first() =~= seq![("default-graph-uri"@, d), ("named-graph-uri"@, ng)]);
    assert(p.drop_first().drop_first() =~= seq![("named-graph-uri"@, ng)]);
    assert(p.drop_first().drop_first().drop_first() =~= Seq::<(Seq<char>, Seq<char>)>::empty());
    assert("query"@.len() == 5);
    assert("default-graph-uri"@.len() == 17);
    assert("named-graph-uri"@.len() == 15);
    assert("default-graph-uri"@ != "query"@);
    assert("named-graph-uri"@ != "query"@ && "named-graph-uri"@ != "default-graph-uri"@);
    assert(scan_params(p, None, Seq::empty(), Seq::empty()) == scan_params(
        p.drop_first(),
        Some(qt),
        Seq::empty(),
        Seq::empty(),
    ));
    assert(scan_params(p.drop_first(), Some(qt), Seq::empty(), Seq::empty()) == scan_params(
        p.drop_first().drop_first(),
        Some(qt),
        Seq::<Seq<char>>::empty().push(d),
        Seq::empty(),
    ));
    assert(scan_params(
        p.drop_first().drop_first(),
        Some(qt),
        Seq::<Seq<char>>::empty().push(d),
        Seq::empty(),
    ) == scan_params(
        p.drop_first().drop_first().drop_first(),
        Some(qt),
        Seq::<Seq<char>>::empty().push(d),
        Seq::<Seq<char>>::empty().push(ng),
    ));
    assert(Seq::<Seq<char>>::empty().push(d) =~= seq![d]);
    assert(Seq::<Seq<char>>::empty().push(ng) =~= seq![ng]);
}

} // verus!
