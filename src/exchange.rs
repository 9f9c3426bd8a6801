use vstd::prelude::*;
use vstd::string::*;

verus! {

/// The request methods that the route table tells apart.
#[derive(Clone, Copy, Debug, PartialEq, Eq, Structural)]
pub enum Method {
    Get,
    Post,
    Other,
}

/// What a handler reads of an incoming request: its method, its path and the
/// raw value of its `Authorization` header, if it has one.
#[derive(Clone, Debug)]
pub struct Request {
    pub method: Method,
    pub path: String,
    pub authorization: Option<String>,
}

pub struct RequestView {
    pub method: Method,
    pub path: Seq<char>,
    pub authorization: Option<Seq<char>>,
}

impl View for Request {
    type V = RequestView;

    open spec fn view(&self) -> RequestView {
        RequestView {
            method: self.method,
            path: self.path@,
            authorization: match self.authorization {
                Some(a) => Some(a@),
                None => None,
            },
        }
    }
}

impl Request {
    pub fn new(method: Method, path: String, authorization: Option<String>) -> (r: Request)
        ensures
            r.method == method,
            r.path == path,
            r.authorization == authorization,
    {
        Request { method, path, authorization }
    }
}

/// How the body of a reply is to be read by the client.
#[derive(Clone, Copy, Debug, PartialEq, Eq, Structural)]
pub enum Content {
    Empty,
    Html,
    Plain,
}

/// An HTTP reply: status code, body, its content type and, for a redirect, the
/// target.
#[derive(Clone, Debug)]
pub struct Reply {
    pub status: u16,
    pub body: String,
    pub content: Content,
    pub location: Option<String>,
}

pub struct ReplyView {
    pub status: u16,
    pub body: Seq<char>,
    pub content: Content,
    pub location: Option<Seq<char>>,
}

impl View for Reply {
    type V = ReplyView;

    open spec fn view(&self) -> ReplyView {
        ReplyView {
            status: self.status,
            body: self.body@,
            content: self.content,
            location: match self.location {
                Some(l) => Some(l@),
                None => None,
            },
        }
    }
}

/// A page: status 200 and an HTML body.
pub open spec fn html_page(body: Seq<char>) -> ReplyView {
    ReplyView { status: 200, body, content: Content::Html, location: None }
}

/// A reply with a status code and nothing in its body.
pub open spec fn bare(status: u16) -> ReplyView {
    ReplyView { status, body: Seq::empty(), content: Content::Empty, location: None }
}

/// The only text a client sees of a failure inside a handler.
pub open spec fn failure_text() -> Seq<char> {
    "Something went wrong"@
}

/// A failure inside a handler: status 500 and a fixed plain-text body.
pub open spec fn internal_error() -> ReplyView {
    ReplyView { status: 500, body: failure_text(), content: Content::Plain, location: None }
}

/// A temporary redirect (status 307) to `target`, with an empty body.
pub open spec fn temporary_redirect(target: Seq<char>) -> ReplyView {
    ReplyView { status: 307, body: Seq::empty(), content: Content::Empty, location: Some(target) }
}

impl Reply {
    pub fn html(body: String) -> (r: Reply)
        ensures
            r@ == html_page(body@),
    {
        Reply { status: 200, body, content: Content::Html, location: None }
    }

    pub fn bare(status: u16) -> (r: Reply)
        ensures
            r@ == bare(status),
    {
        Reply { status, body: String::new(), content: Content::Empty, location: None }
    }

    pub fn internal_error() -> (r: Reply)
        ensures
            r@ == internal_error(),
    {
        Reply {
            status: 500,
            body: String::from_str("Something went wrong"),
            content: Content::Plain,
            location: None,
        }
    }

    pub fn temporary_redirect(target: String) -> (r: Reply)
        ensures
            r@ == temporary_redirect(target@),
    {
        Reply { status: 307, body: String::new(), content: Content::Empty, location: Some(target) }
    }
}

} // verus!
