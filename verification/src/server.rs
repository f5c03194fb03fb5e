use vstd::prelude::*;
use vstd::string::*;
use crate::model::str_eq;
use crate::protocol::HttpResponse;
use crate::protocol::RequestMethod;
use crate::protocol::ServiceError;
use crate::protocol::ResponseBody;
use crate::protocol::error_response;
use crate::protocol::finalize_response;
use crate::protocol::spec_method_label;

verus! {

/// What the transport layer must do next for a routed request: where
/// the query text and the graph scope are to be read from.
#[derive(PartialEq, Eq, Structural, Clone, Copy, Debug)]
pub enum RequestPlan {
    /// A GET: every parameter comes from the URL's query string.
    QueryFromUrl,
    /// A POST of raw query text: the capped body is the query text,
    /// and the graph scope comes from the URL's query string.
    QueryFromRawBody,
    /// A POST of form-encoded parameters: the capped body carries the
    /// query text and the graph scope.
    QueryFromForm,
}

/// Routes a request from its path, method and content-type essence
/// alone. Only `/query` under GET and POST is known; a POST must
/// declare one of the two supported content types, and each refusal
/// carries its exact status and message.
pub fn plan_request(path: &String, method: &RequestMethod, content_type: &Option<String>) -> (r:
    Result<RequestPlan, ServiceError>)
    ensures
        ({
            if path@ == "/query"@ && method is Get {
                r == Ok::<RequestPlan, ServiceError>(RequestPlan::QueryFromUrl)
            } else if path@ == "/query"@ && method is Post {
                match content_type {
                    None => r matches Err(e) && e.status == 400 && e.message@
                        == "No Content-Type given"@,
                    Some(ct) => {
                        if ct@ == "application/sparql-query"@ {
                            r == Ok::<RequestPlan, ServiceError>(RequestPlan::QueryFromRawBody)
                        } else if ct@ == "application/x-www-form-urlencoded"@ {
                            r == Ok::<RequestPlan, ServiceError>(RequestPlan::QueryFromForm)
                        } else {
                            r matches Err(e) && e.status == 415 && e.message@
                                == "Not supported Content-Type given: "@ + ct@
                        }
                    },
                }
            } else {
                r matches Err(e) && e.status == 404 && e.message@ == spec_method_label(*method)
                    + " "@ + path@ + " is not supported by this server"@
            }
        }),
{
    let on_query = str_eq(path.as_str(), "/query");
    if on_query && matches!(method, RequestMethod::Get) {
        Ok(RequestPlan::QueryFromUrl)
    } else if on_query && matches!(method, RequestMethod::Post) {
        match content_type {
            None => Err(
                ServiceError { status: 400, message: String::from_str("No Content-Type given") },
            ),
            Some(ct) => {
                if str_eq(ct.as_str(), "application/sparql-query") {
                    Ok(RequestPlan::QueryFromRawBody)
                } else if str_eq(ct.as_str(), "application/x-www-form-urlencoded") {
                    Ok(RequestPlan::QueryFromForm)
                } else {
                    let message = String::from_str("Not supported Content-Type given: ").concat(
                        ct.as_str(),
                    );
                    Err(ServiceError { status: 415, message })
                }
            }
        }
    } else {
        let message = String::from_str(method.label()).concat(" ").concat(path.as_str()).concat(
            " is not supported by this server",
        );
        proof {
            reveal_strlit(" ");
        }
        Err(ServiceError { status: 404, message })
    }
}

/// Turns a handler's outcome into the response that is written back:
/// a failure becomes a response with its status and message, and every
/// response, either way, gets the server-identity header appended.
pub fn complete_response(result: Result<HttpResponse, ServiceError>) -> (r: HttpResponse)
    ensures
        result matches Ok(resp) ==> r.status == resp.status && r.content_type == resp.content_type
            && r.body == resp.body,
        result matches Err(e) ==> r.status == e.status && r.content_type is None && (
        r.body matches ResponseBody::Text(t) && t@ == e.message@),
        r.server matches Some(s) && s@ == "oxiwiki"@,
{
    let mut resp = match result {
        Ok(resp) => resp,
        Err(e) => error_response(e),
    };
    finalize_response(&mut resp);
    resp
}

} // verus!
