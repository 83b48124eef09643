//! The serialiser: a borrowed request or response, and its text.

use crate::decode::lossy_text_fits;
use crate::header::{
    header_block, header_views, join_lines, write_header_lines, Header, HeaderView,
};
use crate::message::{
    request_line, request_text, response_text, status_line, write_message, write_request_line,
    write_status_line, Request, RequestView, Response, ResponseView,
};
use crate::status::status_text;
use crate::version::{version_text, HttpVersion};
use vstd::prelude::*;

verus! {

/// A message to be serialised: a request or a response, borrowed for as
/// long as the serialiser lives.
#[derive(Clone, Copy, Debug)]
pub enum HttpParser<'a> {
    Request(&'a Request),
    Response(&'a Response),
}

/// A message as sequences.
pub ghost enum MessageView {
    Request(RequestView),
    Response(ResponseView),
}

impl MessageView {
    /// The version of the message.
    pub open spec fn version(self) -> HttpVersion {
        match self {
            MessageView::Request(request) => request.version,
            MessageView::Response(response) => response.version,
        }
    }

    /// The header fields of the message, in their order.
    pub open spec fn headers(self) -> Seq<HeaderView> {
        match self {
            MessageView::Request(request) => request.headers,
            MessageView::Response(response) => response.headers,
        }
    }

    /// The body of the message.
    pub open spec fn body(self) -> Seq<char> {
        match self {
            MessageView::Request(request) => request.body,
            MessageView::Response(response) => response.body,
        }
    }

    /// The start line of the message, without its line end.
    pub open spec fn start_line(self) -> Seq<char> {
        match self {
            MessageView::Request(request) => request_line(
                request.method,
                request.target,
                version_text(request.version),
            ),
            MessageView::Response(response) => status_line(
                version_text(response.version),
                status_text(response.status),
            ),
        }
    }
}

impl<'a> View for HttpParser<'a> {
    type V = MessageView;

    open spec fn view(&self) -> MessageView {
        match *self {
            HttpParser::Request(request) => MessageView::Request(request@),
            HttpParser::Response(response) => MessageView::Response(response@),
        }
    }
}

/// The text of a message on the wire.
pub open spec fn wire_text(message: MessageView) -> Seq<char> {
    match message {
        MessageView::Request(request) => request_text(request),
        MessageView::Response(response) => response_text(response),
    }
}

/// What `parse` returns for a message: always a text, and the text of the
/// message.
pub open spec fn is_parse_of(message: MessageView, result: Option<String>) -> bool {
    result matches Some(text) && text@ == wire_text(message)
}

/// Whether the lossy text of every header value of a message fits the value:
/// decoded as it stands where the value is valid UTF-8, and marked with the
/// replacement character at its first invalid sequence where it is not.
pub open spec fn header_values_fit(headers: Seq<HeaderView>) -> bool {
    forall|i: int| 0 <= i < headers.len() ==> lossy_text_fits(#[trigger] headers[i].value)
}

impl<'a> HttpParser<'a> {
    /// The serialiser of a request.
    pub fn from_request(request: &'a Request) -> (parser: Self)
        ensures
            parser == HttpParser::Request(request),
    {
        HttpParser::Request(request)
    }

    /// The serialiser of a response.
    pub fn from_response(response: &'a Response) -> (parser: Self)
        ensures
            parser == HttpParser::Response(response),
    {
        HttpParser::Response(response)
    }

    /// The header fields of the message.
    fn headers(&self) -> (headers: &Vec<Header>)
        ensures
            header_views(headers@) == self@.headers(),
    {
        match self {
            HttpParser::Request(request) => &request.headers,
            HttpParser::Response(response) => &response.headers,
        }
    }

    /// The version token of the message. Every version has one.
    pub fn parse_version(&self) -> (token: Option<String>)
        ensures
            token matches Some(text) && text@ == version_text(self@.version()),
    {
        let version = match self {
            HttpParser::Request(request) => request.version,
            HttpParser::Response(response) => response.version,
        };
        Some(String::from_str(version.as_str()))
    }

    /// The header block of the message: one line for each header field, in
    /// the order of the fields, joined by line ends. No header value makes
    /// this fail.
    pub fn parse_header(&self) -> (block: String)
        ensures
            block@ == header_block(self@.headers()),
            header_values_fit(self@.headers()),
    {
        let headers = self.headers();
        let lines = write_header_lines(headers);
        let block = join_lines(&lines);
        proof {
            assert forall|i: int| 0 <= i < self@.headers().len() implies lossy_text_fits(
                #[trigger] self@.headers()[i].value,
            ) by {
                assert(self@.headers()[i] == headers[i]@);
            }
        }
        block
    }

    /// The text of the message if it is a request, and nothing if it is a
    /// response.
    pub fn parse_request(&self) -> (result: Option<String>)
        ensures
            self@ is Request ==> is_parse_of(self@, result) && header_values_fit(self@.headers()),
            self@ is Response ==> result is None,
    {
        if let HttpParser::Request(request) = self {
            let version = match self.parse_version() {
                Some(version) => version,
                None => { return None; },
            };
            let line = write_request_line(
                request.method.as_str(),
                request.target.as_str(),
                version.as_str(),
            );
            let block = self.parse_header();
            return Some(write_message(line.as_str(), block.as_str(), request.body.as_str()));
        }
        None
    }

    /// The text of the message if it is a response, and nothing if it is a
    /// request.
    pub fn parse_response(&self) -> (result: Option<String>)
        ensures
            self@ is Response ==> is_parse_of(self@, result) && header_values_fit(
                self@.headers(),
            ),
            self@ is Request ==> result is None,
    {
        if let HttpParser::Response(response) = self {
            let version = match self.parse_version() {
                Some(version) => version,
                None => { return None; },
            };
            let status = response.status.to_text();
            let line = write_status_line(version.as_str(), status.as_str());
            let block = self.parse_header();
            return Some(write_message(line.as_str(), block.as_str(), response.body.as_str()));
        }
        None
    }

    /// The text of the message on the wire. There is one for every message:
    /// each version has its token, and a header value that is no valid
    /// UTF-8 is written with replacement characters.
    pub fn parse(&self) -> (result: Option<String>)
        ensures
            is_parse_of(self@, result),
            header_values_fit(self@.headers()),
    {
        match self {
            HttpParser::Request(_) => self.parse_request(),
            HttpParser::Response(_) => self.parse_response(),
        }
    }
}

} // verus!
