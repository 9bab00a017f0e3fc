//! Responses as plain values: a status, a representation and a body.

use vstd::prelude::*;

verus! {

pub const OK: u16 = 200;

pub const NOT_FOUND: u16 = 404;

pub const TEXT_HTML: &'static str = "text/html";

pub const TEXT_MARKDOWN: &'static str = "text/markdown";

pub const TEXT_CSS: &'static str = "text/css";

/// The representation of a response body.
#[derive(Debug, PartialEq, Eq, Structural, Clone, Copy)]
pub enum ContentType {
    Html,
    Markdown,
    Css,
}

pub open spec fn mime_of(t: ContentType) -> Seq<char> {
    match t {
        ContentType::Html => TEXT_HTML@,
        ContentType::Markdown => TEXT_MARKDOWN@,
        ContentType::Css => TEXT_CSS@,
    }
}

impl ContentType {
    /// The value of the content-type header for this representation.
    pub fn mime(&self) -> (r: &'static str)
        ensures
            r@ == mime_of(*self),
    {
        match self {
            ContentType::Html => TEXT_HTML,
            ContentType::Markdown => TEXT_MARKDOWN,
            ContentType::Css => TEXT_CSS,
        }
    }
}

/// What a handler hands back to the transport: status, content type, body.
#[derive(Debug)]
pub struct Reply {
    pub status: u16,
    pub content_type: ContentType,
    pub body: String,
}

/// An HTML document served with status OK.
pub fn html(body: String) -> (r: Reply)
    ensures
        r.status == OK,
        r.content_type == ContentType::Html,
        r.body@ == body@,
{
    Reply { status: OK, content_type: ContentType::Html, body }
}

/// Markdown text, served as `text/markdown`.
#[derive(Clone, Copy, Debug)]
pub struct Markdown<T>(pub T);

impl Markdown<String> {
    pub fn into_reply(self) -> (r: Reply)
        ensures
            r.status == OK,
            r.content_type == ContentType::Markdown,
            r.body@ == self.0@,
    {
        Reply { status: OK, content_type: ContentType::Markdown, body: self.0 }
    }
}

/// A stylesheet, served as `text/css`.
#[derive(Clone, Copy, Debug)]
pub struct Css<T>(pub T);

impl Css<String> {
    pub fn into_reply(self) -> (r: Reply)
        ensures
            r.status == OK,
            r.content_type == ContentType::Css,
            r.body@ == self.0@,
    {
        Reply { status: OK, content_type: ContentType::Css, body: self.0 }
    }
}

} // verus!
