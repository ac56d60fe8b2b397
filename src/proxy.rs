use vstd::prelude::*;
use vstd::string::*;

verus! {

/// The statuses that the proxy passes on as the backing service gave them.
pub open spec fn passed_through(s: u16) -> bool {
    s == 200 || s == 201 || s == 202 || s == 204 || s == 400 || s == 401 || s == 403 || s == 404
        || s == 405 || s == 409 || s == 500 || s == 503
}

/// The status the proxy answers with for the backing service's status: the
/// same where it is one the proxy passes on, else 500.
pub fn convert_status(req_status: u16) -> (r: u16)
    ensures
        passed_through(req_status) ==> r == req_status,
        !passed_through(req_status) ==> r == 500,
{
    match req_status {
        200 | 201 | 202 | 204 | 400 | 401 | 403 | 404 | 405 | 409 | 500 | 503 => req_status,
        _ => 500,
    }
}

/// The inbound request's path and query laid onto the backing service's
/// address: scheme, host and port change, path and query stay.
pub fn rewrite_uri(backing_address: &str, path_and_query: &str) -> (r: String)
    ensures
        r@ == backing_address@ + path_and_query@,
{
    let mut s = String::from_str(backing_address);
    s.append(path_and_query);
    s
}

/// The verbs the proxy forwards.
#[derive(Debug, Clone, Copy, PartialEq, Eq, Structural)]
pub enum Method {
    Get,
    Post,
    Patch,
    Delete,
}

/// A request to send on to the backing service.
#[derive(Debug, Clone, PartialEq, Eq)]
pub struct Forward {
    pub method: Method,
    pub uri: String,
    pub logid: String,
    pub content_type: Option<Vec<u8>>,
    pub body: Vec<u8>,
}

/// The outbound form of an inbound request: the same method, body and
/// content type, the rewritten address, and the correlation id that the
/// inbound request carried (`logid`), which the reply will echo.
pub fn forward_request(
    method: Method,
    backing_address: &str,
    path_and_query: &str,
    logid: String,
    content_type: Option<Vec<u8>>,
    body: Vec<u8>,
) -> (r: Forward)
    ensures
        r.method == method,
        r.uri@ == backing_address@ + path_and_query@,
        r.logid@ == logid@,
        r.content_type == content_type,
        r.body == body,
{
    Forward {
        method,
        uri: rewrite_uri(backing_address, path_and_query),
        logid,
        content_type,
        body,
    }
}

/// The proxy's answer to the client.
#[derive(Debug, Clone, PartialEq, Eq)]
pub struct Relayed {
    pub status: u16,
    pub content_type: Vec<u8>,
    pub body: String,
    pub logid: String,
}

/// The answer built from the backing service's reply: its status converted,
/// its content type (empty where it gave none), its body (empty where the
/// body could not be read, `None`), and the request's correlation id.
pub fn relay_reply(
    status: u16,
    content_type: Option<Vec<u8>>,
    body: Option<String>,
    logid: String,
) -> (r: Relayed)
    ensures
        passed_through(status) ==> r.status == status,
        !passed_through(status) ==> r.status == 500,
        r.content_type@ == match content_type {
            Some(c) => c@,
            None => Seq::<u8>::empty(),
        },
        r.body@ == match body {
            Some(b) => b@,
            None => Seq::<char>::empty(),
        },
        r.logid@ == logid@,
{
    let content_type = match content_type {
        Some(c) => c,
        None => Vec::new(),
    };
    let body = match body {
        Some(b) => b,
        None => String::new(),
    };
    Relayed { status: convert_status(status), content_type, body, logid }
}

} // verus!
