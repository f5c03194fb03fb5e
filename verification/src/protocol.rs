use vstd::prelude::*;
use vstd::string::*;

verus! {

/// A request-handling failure, carried as the HTTP status to answer
/// with and a human-readable message for the response body.
#[derive(Debug)]
pub struct ServiceError {
    pub status: u16,
    pub message: String,
}

/// Whether a status code reports a server-side fault; only such
/// failures are logged, client-input faults are not.
pub open spec fn spec_is_server_error(status: u16) -> bool {
    500 <= status < 600
}

impl ServiceError {
    /// Whether this failure is a server-side fault.
    pub fn is_server_error(&self) -> (r: bool)
        ensures
            r == spec_is_server_error(self.status),
    {
        500 <= self.status && self.status < 600
    }
}

/// Marks a failure as caused by the client's input: status 400 with the
/// underlying cause as the message.
pub fn bad_request(message: String) -> (r: ServiceError)
    ensures
        r.status == 400,
        r.message@ == message@,
{
    ServiceError { status: 400, message }
}

/// The method of an incoming request: the two methods routing knows,
/// or any other, kept by name for the refusal message.
#[derive(Clone)]
pub enum RequestMethod {
    Get,
    Post,
    Other(String),
}

/// The method's name as it appears in a refusal message.
pub open spec fn spec_method_label(m: RequestMethod) -> Seq<char> {
    match m {
        RequestMethod::Get => "GET"@,
        RequestMethod::Post => "POST"@,
        RequestMethod::Other(name) => name@,
    }
}

impl RequestMethod {
    /// The method's name as it appears in a refusal message.
    pub fn label(&self) -> (r: &str)
        ensures
            r@ == spec_method_label(*self),
    {
        match self {
            RequestMethod::Get => "GET",
            RequestMethod::Post => "POST",
            RequestMethod::Other(name) => name.as_str(),
        }
    }
}

/// A response body: serialized result data, or failure text.
#[derive(Debug)]
pub enum ResponseBody {
    Data(Vec<u8>),
    Text(String),
}

/// An outgoing response: status, negotiated content type, body, and
/// the server-identity header once it has been appended.
#[derive(Debug)]
pub struct HttpResponse {
    pub status: u16,
    pub content_type: Option<String>,
    pub body: ResponseBody,
    pub server: Option<String>,
}

/// A successful response: status 200 with the serialized result and
/// its media type.
pub fn success_response(body: Vec<u8>, content_type: String) -> (r: HttpResponse)
    ensures
        r.status == 200,
        r.content_type matches Some(ct) && ct@ == content_type@,
        r.body matches ResponseBody::Data(d) && d@ == body@,
        r.server is None,
{
    HttpResponse { status: 200, content_type: Some(content_type), body: ResponseBody::Data(body), server: None }
}

/// Turns a failure into the response sent to the client: its status,
/// with the failure message as the body.
pub fn error_response(e: ServiceError) -> (r: HttpResponse)
    ensures
        r.status == e.status,
        r.content_type is None,
        r.body matches ResponseBody::Text(t) && t@ == e.message@,
        r.server is None,
{
    HttpResponse { status: e.status, content_type: None, body: ResponseBody::Text(e.message), server: None }
}

/// Appends the fixed server-identity header; every response carries it
/// just before being written back.
pub fn finalize_response(r: &mut HttpResponse)
    ensures
        final(r).server matches Some(s) && s@ == "oxiwiki"@,
        final(r).status == old(r).status,
        final(r).content_type == old(r).content_type,
        final(r).body == old(r).body,
{
    r.server = Some(String::from_str("oxiwiki"));
}

} // verus!
