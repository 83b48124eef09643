//! Requests and responses, and the text that each is on the wire.

use crate::header::{crlf, header_block, header_views, Header, HeaderView};
use crate::status::{status_text, StatusCode};
use crate::version::{version_text, HttpVersion};
use vstd::prelude::*;

verus! {

/// A request: what is asked of which target, under which version, with
/// header fields in the order in which they are to be sent, and a body.
#[derive(Clone, Debug, PartialEq, Eq)]
pub struct Request {
    pub method: String,
    pub target: String,
    pub version: HttpVersion,
    pub headers: Vec<Header>,
    pub body: String,
}

/// A response: version and status, header fields in the order in which they
/// are to be sent, and a body.
#[derive(Clone, Debug, PartialEq, Eq)]
pub struct Response {
    pub version: HttpVersion,
    pub status: StatusCode,
    pub headers: Vec<Header>,
    pub body: String,
}

/// A request as sequences.
pub ghost struct RequestView {
    pub method: Seq<char>,
    pub target: Seq<char>,
    pub version: HttpVersion,
    pub headers: Seq<HeaderView>,
    pub body: Seq<char>,
}

/// A response as sequences, with the number of its status code.
pub ghost struct ResponseView {
    pub version: HttpVersion,
    pub status: u16,
    pub headers: Seq<HeaderView>,
    pub body: Seq<char>,
}

impl View for Request {
    type V = RequestView;

    open spec fn view(&self) -> RequestView {
        RequestView {
            method: self.method@,
            target: self.target@,
            version: self.version,
            headers: header_views(self.headers@),
            body: self.body@,
        }
    }
}

impl View for Response {
    type V = ResponseView;

    open spec fn view(&self) -> ResponseView {
        ResponseView {
            version: self.version,
            status: self.status@,
            headers: header_views(self.headers@),
            body: self.body@,
        }
    }
}

/// The start line of a request: method, target and version token, with one
/// space between each two.
pub open spec fn request_line(method: Seq<char>, target: Seq<char>, version: Seq<char>) -> Seq<
    char,
> {
    method + seq![' '] + target + seq![' '] + version
}

/// The start line of a response: version token, a space, and the status.
pub open spec fn status_line(version: Seq<char>, status: Seq<char>) -> Seq<char> {
    version + seq![' '] + status
}

/// A message on the wire: the start line and a line end, the header block
/// and a line end, then the body as it stands.
pub open spec fn message_text(start_line: Seq<char>, block: Seq<char>, body: Seq<char>) -> Seq<
    char,
> {
    start_line + crlf() + block + crlf() + body
}

/// The text of a request.
pub open spec fn request_text(request: RequestView) -> Seq<char> {
    message_text(
        request_line(request.method, request.target, version_text(request.version)),
        header_block(request.headers),
        request.body,
    )
}

/// The text of a response.
pub open spec fn response_text(response: ResponseView) -> Seq<char> {
    message_text(
        status_line(version_text(response.version), status_text(response.status)),
        header_block(response.headers),
        response.body,
    )
}

/// Puts a message together from its start line, its header block and its
/// body.
pub fn write_message(start_line: &str, block: &str, body: &str) -> (text: String)
    ensures
        text@ == message_text(start_line@, block@, body@),
{
    proof {
        reveal_strlit("\r\n");
    }
    let mut text = String::from_str(start_line);
    text.append("\r\n");
    assert(text@ =~= start_line@ + crlf());
    text.append(block);
    text.append("\r\n");
    assert(text@ =~= start_line@ + crlf() + block@ + crlf());
    text.append(body);
    text
}

/// Writes the start line of a request.
pub fn write_request_line(method: &str, target: &str, version: &str) -> (line: String)
    ensures
        line@ == request_line(method@, target@, version@),
{
    proof {
        reveal_strlit(" ");
    }
    let mut line = String::from_str(method);
    line.append(" ");
    assert(line@ =~= method@ + seq![' ']);
    line.append(target);
    line.append(" ");
    assert(line@ =~= method@ + seq![' '] + target@ + seq![' ']);
    line.append(version);
    line
}

/// Writes the start line of a response.
pub fn write_status_line(version: &str, status: &str) -> (line: String)
    ensures
        line@ == status_line(version@, status@),
{
    proof {
        reveal_strlit(" ");
    }
    let mut line = String::from_str(version);
    line.append(" ");
    assert(line@ =~= version@ + seq![' ']);
    line.append(status);
    line
}

} // verus!
