//! The requests of the engine's API: what is asked, of which path, with which
//! headers and body. Building one does no I/O.

use crate::container::{obeys_policy, ContainerConfig};
use crate::decimal::{decimal_u64, digits};
use crate::json::{encode, json_text, EncodeError};
use crate::wire::container_json;
use vstd::prelude::*;
use vstd::string::*;
use vstd::utf8::encode_utf8;

verus! {

/// The method of a request.
#[derive(Debug, Clone, Copy, PartialEq, Eq)]
pub enum Method {
    Get,
    Post,
}

/// One header line of a request.
#[derive(Debug, PartialEq, Eq)]
pub struct Header {
    pub name: String,
    pub value: String,
}

/// A request to the engine.
#[derive(Debug, PartialEq, Eq)]
pub struct Request {
    pub method: Method,
    pub path: String,
    pub headers: Vec<Header>,
    pub body: Vec<u8>,
}

/// A request, as a mathematical value: each header is a name and a value.
pub struct RequestSpec {
    pub method: Method,
    pub path: Seq<char>,
    pub headers: Seq<(Seq<char>, Seq<char>)>,
    pub body: Seq<u8>,
}

impl View for Header {
    type V = (Seq<char>, Seq<char>);

    open spec fn view(&self) -> (Seq<char>, Seq<char>) {
        (self.name@, self.value@)
    }
}

/// The headers of a list, each taken as a name and a value.
pub open spec fn headers_view(headers: Vec<Header>) -> Seq<(Seq<char>, Seq<char>)> {
    Seq::new(headers@.len(), |i: int| headers@[i]@)
}

impl View for Request {
    type V = RequestSpec;

    open spec fn view(&self) -> RequestSpec {
        RequestSpec {
            method: self.method,
            path: self.path@,
            headers: headers_view(self.headers),
            body: self.body@,
        }
    }
}

/// The answer is wanted as JSON.
pub open spec fn accept_json() -> (Seq<char>, Seq<char>) {
    ("Accept"@, "application/json"@)
}

/// The engine is addressed as the local host.
pub open spec fn host_local() -> (Seq<char>, Seq<char>) {
    ("Host"@, "127.0.0.1"@)
}

/// The connection carries this one request and is closed after it.
pub open spec fn connection_close() -> (Seq<char>, Seq<char>) {
    ("Connection"@, "close"@)
}

/// The body is JSON.
pub open spec fn content_json() -> (Seq<char>, Seq<char>) {
    ("Content-Type"@, "application/json"@)
}

/// The body is `len` bytes long.
pub open spec fn content_length(len: nat) -> (Seq<char>, Seq<char>) {
    ("Content-Length"@, digits(len))
}

/// The request for the engine's version.
pub open spec fn version_request_spec() -> RequestSpec {
    RequestSpec {
        method: Method::Get,
        path: "/version"@,
        headers: seq![accept_json(), host_local(), connection_close()],
        body: Seq::empty(),
    }
}

/// The request that creates a container from the JSON text `body`.
pub open spec fn create_request_spec(body: Seq<u8>) -> RequestSpec {
    RequestSpec {
        method: Method::Post,
        path: "/containers/create"@,
        headers: seq![
            content_json(),
            accept_json(),
            host_local(),
            content_length(body.len()),
            connection_close(),
        ],
        body,
    }
}

/// The request that starts the container `id`.
pub open spec fn start_request_spec(id: Seq<char>) -> RequestSpec {
    RequestSpec {
        method: Method::Post,
        path: "/containers/"@ + id + "/start"@,
        headers: seq![accept_json(), host_local(), connection_close()],
        body: Seq::empty(),
    }
}

/// The request that attaches to the container `id`, to its standard input,
/// output and error, as a stream.
pub open spec fn attach_request_spec(id: Seq<char>) -> RequestSpec {
    RequestSpec {
        method: Method::Post,
        path: "/containers/"@ + id + "/attach?stream=1&stdout=1&stdin=1&stderr=1"@,
        headers: seq![host_local(), connection_close()],
        body: Seq::empty(),
    }
}

fn header(name: &str, value: &str) -> (h: Header)
    ensures
        h@ == (name@, value@),
{
    Header { name: name.to_string(), value: value.to_string() }
}

fn container_path(id: &str, action: &str) -> (path: String)
    ensures
        path@ == "/containers/"@ + id@ + action@,
{
    let mut path = "/containers/".to_string();
    path.append(id);
    path.append(action);
    path
}

/// Builds the request for the engine's version.
pub fn version_request() -> (request: Request)
    ensures
        request@ == version_request_spec(),
{
    let headers = vec![
        header("Accept", "application/json"),
        header("Host", "127.0.0.1"),
        header("Connection", "close"),
    ];
    assert(headers_view(headers) == version_request_spec().headers);
    Request { method: Method::Get, path: "/version".to_string(), headers, body: Vec::new() }
}

/// Builds the request that creates a container from a body that is already
/// JSON text. The declared content length is the length of `body`.
pub fn create_container_request(body: Vec<u8>) -> (request: Request)
    ensures
        request@ == create_request_spec(body@),
{
    let length = decimal_u64(body.len() as u64);
    let headers = vec![
        header("Content-Type", "application/json"),
        header("Accept", "application/json"),
        header("Host", "127.0.0.1"),
        header("Content-Length", length.as_str()),
        header("Connection", "close"),
    ];
    assert(headers_view(headers) == create_request_spec(body@).headers);
    Request { method: Method::Post, path: "/containers/create".to_string(), headers, body }
}

/// Builds the request that creates a container from `config`: its body is the
/// compact JSON text of the configuration. It fails where the JSON encoder
/// fails on one of the configuration's strings, and only there.
pub fn create_container(config: &ContainerConfig) -> (r: Result<Request, EncodeError>)
    ensures
        match json_text(container_json(config@)) {
            Some(body) => r matches Ok(request) && request@ == create_request_spec(body),
            None => r is Err,
        },
        obeys_policy(config@),
{
    proof {
        use_type_invariant(config);
        config.lemma_sandboxed();
    }
    match encode(&config.to_json()) {
        Ok(body) => Ok(create_container_request(body)),
        Err(e) => Err(e),
    }
}

/// Builds the request that starts a container.
pub fn start_container(container_id: &str) -> (request: Request)
    requires
        container_id@.len() > 0,
    ensures
        request@ == start_request_spec(container_id@),
{
    let headers = vec![
        header("Accept", "application/json"),
        header("Host", "127.0.0.1"),
        header("Connection", "close"),
    ];
    assert(headers_view(headers) == start_request_spec(container_id@).headers);
    Request {
        method: Method::Post,
        path: container_path(container_id, "/start"),
        headers,
        body: Vec::new(),
    }
}

/// Builds the request that attaches to a container. What answers it is, after
/// the response head, the multiplexed stream of the container's output.
pub fn attach_container_request(container_id: &str) -> (request: Request)
    ensures
        request@ == attach_request_spec(container_id@),
{
    let headers = vec![header("Host", "127.0.0.1"), header("Connection", "close")];
    assert(headers_view(headers) == attach_request_spec(container_id@).headers);
    Request {
        method: Method::Post,
        path: container_path(container_id, "/attach?stream=1&stdout=1&stdin=1&stderr=1"),
        headers,
        body: Vec::new(),
    }
}

/// The name of a method as the request line spells it.
pub open spec fn method_name(method: Method) -> Seq<char> {
    match method {
        Method::Get => "GET"@,
        Method::Post => "POST"@,
    }
}

/// One header as a line: the name, a colon and a space, the value, and the
/// end of the line.
pub open spec fn header_line(header: (Seq<char>, Seq<char>)) -> Seq<u8> {
    encode_utf8(header.0) + encode_utf8(": "@) + encode_utf8(header.1) + encode_utf8("\r\n"@)
}

/// The lines of `headers`, in order.
pub open spec fn header_lines(headers: Seq<(Seq<char>, Seq<char>)>) -> Seq<u8>
    decreases headers.len(),
{
    if headers.len() == 0 {
        Seq::empty()
    } else {
        header_lines(headers.drop_last()) + header_line(headers.last())
    }
}

/// A request as it goes over the wire: the request line, the header lines, an
/// empty line, the body.
pub open spec fn request_bytes(request: RequestSpec) -> Seq<u8> {
    encode_utf8(method_name(request.method)) + encode_utf8(" "@) + encode_utf8(request.path)
        + encode_utf8(" HTTP/1.1\r\n"@) + header_lines(request.headers) + encode_utf8("\r\n"@)
        + request.body
}

impl Method {
    /// The name of the method as the request line spells it.
    pub fn name(&self) -> (r: &'static str)
        ensures
            r@ == method_name(*self),
    {
        match self {
            Method::Get => "GET",
            Method::Post => "POST",
        }
    }
}

impl Request {
    /// The bytes that send this request over a connection.
    pub fn to_bytes(&self) -> (bytes: Vec<u8>)
        ensures
            bytes@ == request_bytes(self@),
    {
        let mut out: Vec<u8> = Vec::new();
        out.extend_from_slice(self.method.name().as_bytes());
        out.extend_from_slice(" ".as_bytes());
        out.extend_from_slice(self.path.as_str().as_bytes());
        out.extend_from_slice(" HTTP/1.1\r\n".as_bytes());
        let ghost start = out@;
        let ghost all = headers_view(self.headers);
        let mut i: usize = 0;
        while i < self.headers.len()
            invariant
                i <= self.headers.len(),
                all == headers_view(self.headers),
                out@ == start + header_lines(all.take(i as int)),
            decreases self.headers.len() - i,
        {
            let ghost before = out@;
            out.extend_from_slice(self.headers[i].name.as_str().as_bytes());
            out.extend_from_slice(": ".as_bytes());
            out.extend_from_slice(self.headers[i].value.as_str().as_bytes());
            out.extend_from_slice("\r\n".as_bytes());
            proof {
                assert(all.take(i + 1).drop_last() == all.take(i as int));
                assert(all.take(i + 1).last() == all[i as int]);
                assert(out@ == before + header_line(all[i as int]));
            }
            i = i + 1;
        }
        assert(all.take(i as int) == all);
        out.extend_from_slice("\r\n".as_bytes());
        out.extend_from_slice(self.body.as_slice());
        out
    }
}

} // verus!
