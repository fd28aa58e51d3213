//! What the handlers and middleware answer with, before it is put on the wire.

use crate::status::Status;
use vstd::prelude::*;
use vstd::string::StringExecFns;

verus! {

/// A response, described by what distinguishes it.
#[derive(Clone, Debug, PartialEq, Eq)]
pub enum Reply {
    /// An HTML document.
    Html { status: Status, body: String },
    /// A plain-text message.
    Text { status: Status, body: String },
    /// A "see other" redirect to a location.
    Redirect { location: String },
    /// Bytes relayed from elsewhere, under the given content type.
    Relay { status: Status, content_type: Vec<u8>, body: Vec<u8> },
}

/// The mathematical content of a [`Reply`].
pub enum ReplyView {
    Html { code: u16, body: Seq<char> },
    Text { code: u16, body: Seq<char> },
    Redirect { location: Seq<char> },
    Relay { code: u16, content_type: Seq<u8>, body: Seq<u8> },
}

impl View for Reply {
    type V = ReplyView;

    open spec fn view(&self) -> ReplyView {
        match *self {
            Reply::Html { status, body } => ReplyView::Html { code: status.code(), body: body@ },
            Reply::Text { status, body } => ReplyView::Text { code: status.code(), body: body@ },
            Reply::Redirect { location } => ReplyView::Redirect { location: location@ },
            Reply::Relay { status, content_type, body } => ReplyView::Relay {
                code: status.code(),
                content_type: content_type@,
                body: body@,
            },
        }
    }
}

impl ReplyView {
    /// The status code that goes on the wire; a redirect is a 303.
    pub open spec fn code(self) -> u16 {
        match self {
            ReplyView::Html { code, .. } => code,
            ReplyView::Text { code, .. } => code,
            ReplyView::Redirect { .. } => 303,
            ReplyView::Relay { code, .. } => code,
        }
    }
}

/// The characters of a rendering outcome: the document, or the renderer's
/// error text.
pub open spec fn rendered_text(rendered: Result<String, String>) -> Result<Seq<char>, Seq<char>> {
    match rendered {
        Ok(html) => Ok(html@),
        Err(err) => Err(err@),
    }
}

/// The reply for a page: the document under the given code, or a 500 that
/// quotes the renderer's error.
pub open spec fn page_reply(code: u16, rendered: Result<Seq<char>, Seq<char>>) -> ReplyView {
    match rendered {
        Ok(html) => ReplyView::Html { code, body: html },
        Err(err) => ReplyView::Text { code: 500, body: "Failed to render template: "@ + err },
    }
}

impl Reply {
    /// The status that goes on the wire.
    pub fn status(&self) -> (r: u16)
        ensures
            r == self@.code(),
    {
        match self {
            Reply::Html { status, .. } => status.as_u16(),
            Reply::Text { status, .. } => status.as_u16(),
            Reply::Redirect { .. } => 303,
            Reply::Relay { status, .. } => status.as_u16(),
        }
    }

    /// An HTML document under the given status.
    pub fn html(status: Status, body: String) -> (r: Reply)
        ensures
            r@ == (ReplyView::Html { code: status.code(), body: body@ }),
    {
        Reply::Html { status, body }
    }

    /// A plain-text message under the given status.
    pub fn text(status: Status, message: &str) -> (r: Reply)
        ensures
            r@ == (ReplyView::Text { code: status.code(), body: message@ }),
    {
        Reply::Text { status, body: String::from_str(message) }
    }

    /// A redirect to the given location.
    pub fn redirect(location: &str) -> (r: Reply)
        ensures
            r@ == (ReplyView::Redirect { location: location@ }),
    {
        Reply::Redirect { location: String::from_str(location) }
    }

    /// The reply for a rendered page: the document under `status`, or, where
    /// rendering failed, a 500 whose text quotes the error.
    pub fn page(status: Status, rendered: Result<String, String>) -> (r: Reply)
        ensures
            r@ == page_reply(status.code(), rendered_text(rendered)),
    {
        match rendered {
            Ok(html) => Reply::Html { status, body: html },
            Err(err) => {
                let prefix = String::from_str("Failed to render template: ");
                Reply::Text {
                    status: Status::internal_server_error(),
                    body: prefix.concat(err.as_str()),
                }
            },
        }
    }
}

} // verus!
