use vstd::prelude::*;
use vstd::string::*;
use vstd::utf8::is_ascii_chars;
use crate::model::str_eq;
use crate::protocol::ServiceError;

verus! {

/// ASCII optional whitespace around a media-type token.
pub open spec fn is_ows(c: char) -> bool {
    c == ' ' || c == '\t' || c == '\n' || c == '\r'
}

/// The characters of a media type before its parameter part: everything
/// up to the first semicolon, or the whole text if there is none.
pub open spec fn up_to_semicolon(s: Seq<char>) -> Seq<char>
    decreases s.len(),
{
    if s.len() == 0 {
        s
    } else if s[0] == ';' {
        Seq::empty()
    } else {
        seq![s[0]] + up_to_semicolon(s.drop_first())
    }
}

pub open spec fn trim_front(s: Seq<char>) -> Seq<char>
    decreases s.len(),
{
    if s.len() > 0 && is_ows(s[0]) {
        trim_front(s.drop_first())
    } else {
        s
    }
}

pub open spec fn trim_back(s: Seq<char>) -> Seq<char>
    decreases s.len(),
{
    if s.len() > 0 && is_ows(s.last()) {
        trim_back(s.drop_last())
    } else {
        s
    }
}

/// The text with its surrounding ASCII whitespace removed.
pub open spec fn trimmed(s: Seq<char>) -> Seq<char> {
    trim_back(trim_front(s))
}

proof fn lemma_up_to_semicolon_prefix(s: Seq<char>, j: int)
    requires
        0 <= j <= s.len(),
        forall|i: int| 0 <= i < j ==> s[i] != ';',
        j < s.len() ==> s[j] == ';',
    ensures
        up_to_semicolon(s) == s.subrange(0, j),
    decreases j,
{
    if j == 0 {
        assert(up_to_semicolon(s) =~= s.subrange(0, 0));
    } else {
        lemma_up_to_semicolon_prefix(s.drop_first(), j - 1);
        assert(seq![s[0]] + s.drop_first().subrange(0, j - 1) =~= s.subrange(0, j));
    }
}

proof fn lemma_trim_front_suffix(s: Seq<char>, a: int)
    requires
        0 <= a <= s.len(),
        forall|i: int| 0 <= i < a ==> is_ows(s[i]),
        a < s.len() ==> !is_ows(s[a]),
    ensures
        trim_front(s) == s.subrange(a, s.len() as int),
    decreases a,
{
    if a == 0 {
        assert(trim_front(s) =~= s.subrange(0, s.len() as int));
    } else {
        lemma_trim_front_suffix(s.drop_first(), a - 1);
        assert(s.drop_first().subrange(a - 1, s.drop_first().len() as int) =~= s.subrange(
            a,
            s.len() as int,
        ));
    }
}

proof fn lemma_trim_back_prefix(s: Seq<char>, b: int)
    requires
        0 <= b <= s.len(),
        forall|i: int| b <= i < s.len() ==> is_ows(s[i]),
        b > 0 ==> !is_ows(s[b - 1]),
    ensures
        trim_back(s) == s.subrange(0, b),
    decreases s.len(),
{
    if b == s.len() {
        assert(trim_back(s) =~= s.subrange(0, b));
    } else {
        assert(is_ows(s.last()));
        lemma_trim_back_prefix(s.drop_last(), b);
        assert(s.drop_last().subrange(0, b) =~= s.subrange(0, b));
    }
}

/// The media type before its parameter part, as a borrowed slice.
fn media_base<'a>(s: &'a str) -> (r: &'a str)
    ensures
        r@ == up_to_semicolon(s@),
{
    let n = s.unicode_len();
    let mut j: usize = 0;
    loop
        invariant_except_break
            j <= n,
            n == s@.len(),
            forall|i: int| 0 <= i < j ==> s@[i] != ';',
        ensures
            j <= n,
            n == s@.len(),
            forall|i: int| 0 <= i < j ==> s@[i] != ';',
            j < n ==> s@[j as int] == ';',
        decreases n - j,
    {
        if j >= n {
            break ;
        }
        if s.get_char(j) == ';' {
            break ;
        }
        j = j + 1;
    }
    proof {
        lemma_up_to_semicolon_prefix(s@, j as int);
    }
    s.substring_char(0, j)
}

/// The text with surrounding ASCII whitespace removed, as a slice.
fn trim_str<'a>(s: &'a str) -> (r: &'a str)
    ensures
        r@ == trimmed(s@),
{
    let n = s.unicode_len();
    let mut a: usize = 0;
    loop
        invariant_except_break
            a <= n,
            n == s@.len(),
            forall|i: int| 0 <= i < a ==> is_ows(s@[i]),
        ensures
            a <= n,
            n == s@.len(),
            forall|i: int| 0 <= i < a ==> is_ows(s@[i]),
            a < n ==> !is_ows(s@[a as int]),
        decreases n - a,
    {
        if a >= n {
            break ;
        }
        let c = s.get_char(a);
        if !(c == ' ' || c == '\t' || c == '\n' || c == '\r') {
            break ;
        }
        a = a + 1;
    }
    let mut b: usize = n;
    loop
        invariant_except_break
            a <= b <= n,
            n == s@.len(),
            forall|i: int| b <= i < n ==> is_ows(s@[i]),
        ensures
            a <= b <= n,
            n == s@.len(),
            forall|i: int| b <= i < n ==> is_ows(s@[i]),
            b > a ==> !is_ows(s@[b - 1]),
        decreases b,
    {
        if b <= a {
            break ;
        }
        let c = s.get_char(b - 1);
        if !(c == ' ' || c == '\t' || c == '\n' || c == '\r') {
            break ;
        }
        b = b - 1;
    }
    proof {
        lemma_trim_front_suffix(s@, a as int);
        let t = s@.subrange(a as int, s@.len() as int);
        if b > a {
            lemma_trim_back_prefix(t, b - a as int);
        } else {
            lemma_trim_back_prefix(t, 0);
        }
        assert(t.subrange(0, b - a as int) =~= s@.subrange(a as int, b as int));
    }
    s.substring_char(a, b)
}

/// A serialization format for graph-shaped results.
#[derive(PartialEq, Eq, Structural, Clone, Copy, Debug)]
pub enum GraphFormat {
    NTriples,
    Turtle,
    RdfXml,
}

/// The canonical media type of a graph serialization format.
pub open spec fn graph_media_type(f: GraphFormat) -> Seq<char> {
    match f {
        GraphFormat::NTriples => "application/n-triples"@,
        GraphFormat::Turtle => "text/turtle"@,
        GraphFormat::RdfXml => "application/rdf+xml"@,
    }
}

/// The graph format named by a media type, going by its part before
/// any parameters, with surrounding ASCII whitespace removed; known
/// aliases are accepted.
pub open spec fn spec_graph_format_from(s: Seq<char>) -> Option<GraphFormat> {
    let base = trimmed(up_to_semicolon(s));
    if base == "application/n-triples"@ || base == "text/plain"@ {
        Some(GraphFormat::NTriples)
    } else if base == "text/turtle"@ || base == "application/turtle"@ || base
        == "application/x-turtle"@ {
        Some(GraphFormat::Turtle)
    } else if base == "application/rdf+xml"@ || base == "application/xml"@ || base == "text/xml"@ {
        Some(GraphFormat::RdfXml)
    } else {
        None
    }
}

impl GraphFormat {
    /// The media type written into the response's content-type header.
    pub fn media_type(self) -> (r: &'static str)
        ensures
            r@ == graph_media_type(self),
    {
        match self {
            GraphFormat::NTriples => "application/n-triples",
            GraphFormat::Turtle => "text/turtle",
            GraphFormat::RdfXml => "application/rdf+xml",
        }
    }

    /// Looks a graph format up from a media type, accepting parameters
    /// and known aliases.
    pub fn from_media_type(media_type: &str) -> (r: Option<GraphFormat>)
        ensures
            r == spec_graph_format_from(media_type@),
    {
        let base = trim_str(media_base(media_type));
        if str_eq(base, "application/n-triples") || str_eq(base, "text/plain") {
            Some(GraphFormat::NTriples)
        } else if str_eq(base, "text/turtle") || str_eq(base, "application/turtle") || str_eq(
            base,
            "application/x-turtle",
        ) {
            Some(GraphFormat::Turtle)
        } else if str_eq(base, "application/rdf+xml") || str_eq(base, "application/xml") || str_eq(
            base,
            "text/xml",
        ) {
            Some(GraphFormat::RdfXml)
        } else {
            None
        }
    }
}

/// A serialization format for solution- or boolean-shaped results.
#[derive(PartialEq, Eq, Structural, Clone, Copy, Debug)]
pub enum QueryResultsFormat {
    Xml,
    Json,
    Csv,
    Tsv,
}

/// The media type of a solutions serialization format, with the
/// character-set parameter the text formats are written with.
pub open spec fn results_media_type(f: QueryResultsFormat) -> Seq<char> {
    match f {
        QueryResultsFormat::Xml => "application/sparql-results+xml"@,
        QueryResultsFormat::Json => "application/sparql-results+json"@,
        QueryResultsFormat::Csv => "text/csv; charset=utf-8"@,
        QueryResultsFormat::Tsv => "text/tab-separated-values; charset=utf-8"@,
    }
}

/// The solutions format named by a media type, going by its part
/// before any parameters; known aliases are accepted.
pub open spec fn spec_results_format_from(s: Seq<char>) -> Option<QueryResultsFormat> {
    let base = up_to_semicolon(s);
    if base == "application/sparql-results+xml"@ || base == "application/xml"@ || base
        == "text/xml"@ {
        Some(QueryResultsFormat::Xml)
    } else if base == "application/sparql-results+json"@ || base == "application/json"@ || base
        == "text/json"@ {
        Some(QueryResultsFormat::Json)
    } else if base == "text/csv"@ {
        Some(QueryResultsFormat::Csv)
    } else if base == "text/tab-separated-values"@ || base == "text/tsv"@ {
        Some(QueryResultsFormat::Tsv)
    } else {
        None
    }
}

impl QueryResultsFormat {
    /// The media type written into the response's content-type header.
    pub fn media_type(self) -> (r: &'static str)
        ensures
            r@ == results_media_type(self),
    {
        match self {
            QueryResultsFormat::Xml => "application/sparql-results+xml",
            QueryResultsFormat::Json => "application/sparql-results+json",
            QueryResultsFormat::Csv => "text/csv; charset=utf-8",
            QueryResultsFormat::Tsv => "text/tab-separated-values; charset=utf-8",
        }
    }

    /// Looks a solutions format up from a media type, accepting
    /// parameters and known aliases.
    pub fn from_media_type(media_type: &str) -> (r: Option<QueryResultsFormat>)
        ensures
            r == spec_results_format_from(media_type@),
    {
        let base = media_base(media_type);
        if str_eq(base, "application/sparql-results+xml") || str_eq(base, "application/xml")
            || str_eq(base, "text/xml") {
            Some(QueryResultsFormat::Xml)
        } else if str_eq(base, "application/sparql-results+json") || str_eq(
            base,
            "application/json",
        ) || str_eq(base, "text/json") {
            Some(QueryResultsFormat::Json)
        } else if str_eq(base, "text/csv") {
            Some(QueryResultsFormat::Csv)
        } else if str_eq(base, "text/tab-separated-values") || str_eq(base, "text/tsv") {
            Some(QueryResultsFormat::Tsv)
        } else {
            None
        }
    }
}

/// What weighted negotiation against the client's accept-preferences
/// header returns for a supported list: the chosen media type, or the
/// failure's status and message. The weighting rules take pages to
/// state, so the outcome is left abstract; `negotiate_media_type`
/// computes it.
pub uninterp spec fn accept_negotiation(header: Seq<char>, supported: Seq<Seq<char>>) -> Result<
    Seq<char>,
    (u16, Seq<char>),
>;

/// Relies on http-types' `Accept::from_headers` and `Accept::negotiate`:
/// they parse the accept-preferences header and pick the best supported
/// entry by quality weight, a function of the header and the supported
/// list alone. `Accept::negotiate` answers status 406 when nothing
/// matches; a malformed header fails parsing instead.
#[verifier::external_body]
fn negotiate_media_type(header: &str, supported: &Vec<String>) -> (r: Result<String, ServiceError>)
    requires
        is_ascii(header),
    ensures
        (match r {
            Ok(s) => Ok(s@),
            Err(e) => Err((e.status, e.message@)),
        }) == accept_negotiation(header@, supported.deep_view()),
{
    let mut carrier = http_types::Response::new(200);
    carrier.insert_header("accept", header);
    let err = |e: http_types::Error| ServiceError { status: e.status().into(), message: e.to_string() };
    let mut acc = match http_types::content::Accept::from_headers(&carrier).map_err(err)? {
        Some(a) => a,
        None => return Err(ServiceError { status: 500, message: "No Accept header".into() }),
    };
    let mut mimes: Vec<http_types::Mime> = Vec::new();
    for s in supported {
        mimes.push(s.parse().map_err(err)?);
    }
    Ok(acc.negotiate(&mimes).map_err(err)?.value().as_str().into())
}

/// The media types offered for a graph-shaped result, preferred first.
pub open spec fn graph_supported() -> Seq<Seq<char>> {
    seq!["application/n-triples"@, "text/turtle"@, "application/rdf+xml"@]
}

fn graph_supported_list() -> (r: Vec<String>)
    ensures
        r.deep_view() == graph_supported(),
{
    let mut r: Vec<String> = Vec::new();
    r.push(String::from_str("application/n-triples"));
    r.push(String::from_str("text/turtle"));
    r.push(String::from_str("application/rdf+xml"));
    proof {
        assert(r.deep_view() =~~= graph_supported());
    }
    r
}

/// The media types offered for a solutions- or boolean-shaped result,
/// preferred first.
pub open spec fn results_supported() -> Seq<Seq<char>> {
    seq![
        "application/sparql-results+xml"@,
        "application/sparql-results+json"@,
        "text/csv; charset=utf-8"@,
        "text/tab-separated-values; charset=utf-8"@,
    ]
}

fn results_supported_list() -> (r: Vec<String>)
    ensures
        r.deep_view() == results_supported(),
{
    let mut r: Vec<String> = Vec::new();
    r.push(String::from_str("application/sparql-results+xml"));
    r.push(String::from_str("application/sparql-results+json"));
    r.push(String::from_str("text/csv; charset=utf-8"));
    r.push(String::from_str("text/tab-separated-values; charset=utf-8"));
    proof {
        assert(r.deep_view() =~~= results_supported());
    }
    r
}

/// Chooses the serialization format for a graph-shaped result: without
/// an accept-preferences header, the first supported entry; with one,
/// the weighted negotiation's choice, which must name a supported
/// format.
pub fn negotiate_graph_format(accept: &Option<String>) -> (r: Result<GraphFormat, ServiceError>)
    ensures
        accept is None ==> r == Ok::<GraphFormat, ServiceError>(GraphFormat::NTriples),
        accept matches Some(h) ==> ({
            if !is_ascii_chars(h@) {
                r matches Err(e) && e.status == 400
            } else {
                match accept_negotiation(h@, graph_supported()) {
                    Ok(mt) => (match spec_graph_format_from(mt) {
                        Some(f) => r == Ok::<GraphFormat, ServiceError>(f),
                        None => r matches Err(e) && e.status == 500 && e.message@
                            == "Unknown mime type"@,
                    }),
                    Err((st, m)) => r matches Err(e) && e.status == st && e.message@ == m,
                }
            }
        }),
{
    match accept {
        None => Ok(GraphFormat::NTriples),
        Some(h) => {
            if !h.is_ascii() {
                return Err(
                    ServiceError { status: 400, message: String::from_str("Invalid Accept header") },
                );
            }
            let supported = graph_supported_list();
            match negotiate_media_type(h.as_str(), &supported) {
                Ok(mt) => match GraphFormat::from_media_type(mt.as_str()) {
                    Some(f) => Ok(f),
                    None => Err(
                        ServiceError { status: 500, message: String::from_str("Unknown mime type") },
                    ),
                },
                Err(e) => Err(e),
            }
        }
    }
}

/// Chooses the serialization format for a solutions- or boolean-shaped
/// result: without an accept-preferences header, the first supported
/// entry; with one, the weighted negotiation's choice, which must name
/// a supported format.
pub fn negotiate_results_format(accept: &Option<String>) -> (r: Result<
    QueryResultsFormat,
    ServiceError,
>)
    ensures
        accept is None ==> r == Ok::<QueryResultsFormat, ServiceError>(QueryResultsFormat::Xml),
        accept matches Some(h) ==> ({
            if !is_ascii_chars(h@) {
                r matches Err(e) && e.status == 400
            } else {
                match accept_negotiation(h@, results_supported()) {
                    Ok(mt) => (match spec_results_format_from(mt) {
                        Some(f) => r == Ok::<QueryResultsFormat, ServiceError>(f),
                        None => r matches Err(e) && e.status == 500 && e.message@
                            == "Unknown mime type"@,
                    }),
                    Err((st, m)) => r matches Err(e) && e.status == st && e.message@ == m,
                }
            }
        }),
{
    match accept {
        None => Ok(QueryResultsFormat::Xml),
        Some(h) => {
            if !h.is_ascii() {
                return Err(
                    ServiceError { status: 400, message: String::from_str("Invalid Accept header") },
                );
            }
            let supported = results_supported_list();
            match negotiate_media_type(h.as_str(), &supported) {
                Ok(mt) => match QueryResultsFormat::from_media_type(mt.as_str()) {
                    Some(f) => Ok(f),
                    None => Err(
                        ServiceError { status: 500, message: String::from_str("Unknown mime type") },
                    ),
                },
                Err(e) => Err(e),
            }
        }
    }
}

/// The format chosen when no accept-preferences header is present is
/// the first entry of the supported list: its media type heads the
/// list for either result shape.
pub proof fn lemma_default_is_first_supported()
    ensures
        graph_supported()[0] == graph_media_type(GraphFormat::NTriples),
        results_supported()[0] == results_media_type(QueryResultsFormat::Xml),
{
}

} // verus!
