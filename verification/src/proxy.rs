//! The image proxy: which address is fetched, and what is relayed of the
//! outcome.

use crate::reply::{Reply, ReplyView};
use crate::status::Status;
use vstd::prelude::*;
use vstd::string::StrSliceExecFns;
use vstd::utf8::encode_utf8;

verus! {

/// The content type relayed where the upstream names none.
pub open spec fn default_content_type() -> Seq<u8> {
    encode_utf8("image/jpeg"@)
}

/// How fetching the image ended.
#[derive(Clone, Debug, PartialEq, Eq)]
pub enum Fetched {
    /// The request did not get through.
    Unreachable,
    /// A response came, but its body could not be read.
    Unreadable,
    /// A response came, with this status, content type (if any) and body.
    Image { status: Status, content_type: Option<Vec<u8>>, body: Vec<u8> },
}

/// The bytes of an optional byte string.
pub open spec fn bytes_of(bytes: Option<Vec<u8>>) -> Option<Seq<u8>> {
    match bytes {
        Some(b) => Some(b@),
        None => None,
    }
}

/// What is relayed of a fetch: 502 where the upstream was not reached, 500
/// where its body was not read, else its status and body under its content
/// type, or under the default where it named none.
pub open spec fn relayed(fetched: Fetched) -> ReplyView {
    match fetched {
        Fetched::Unreachable => ReplyView::Text { code: 502, body: "Failed to fetch image"@ },
        Fetched::Unreadable => ReplyView::Text { code: 500, body: "Failed to read image"@ },
        Fetched::Image { status, content_type, body } => ReplyView::Relay {
            code: status.code(),
            content_type: match bytes_of(content_type) {
                Some(named) => named,
                None => default_content_type(),
            },
            body: body@,
        },
    }
}

/// First step of the proxy, on the `url` query parameter: the address to
/// fetch, or, where the parameter is missing, the 400 to answer with.
pub fn proxy_google_image(url: Option<String>) -> (r: Result<String, Reply>)
    ensures
        match url {
            Some(u) => r matches Ok(target) && target@ == u@,
            None => r matches Err(reply) && reply@ == (ReplyView::Text {
                code: 400,
                body: "Missing `url` param"@,
            }),
        },
{
    match url {
        Some(u) => Ok(u),
        None => Err(Reply::text(Status::bad_request(), "Missing `url` param")),
    }
}

/// Second step of the proxy: the reply for the outcome of the fetch.
pub fn relay_image(fetched: Fetched) -> (r: Reply)
    ensures
        r@ == relayed(fetched),
{
    match fetched {
        Fetched::Unreachable => Reply::text(Status::bad_gateway(), "Failed to fetch image"),
        Fetched::Unreadable => Reply::text(
            Status::internal_server_error(),
            "Failed to read image",
        ),
        Fetched::Image { status, content_type, body } => {
            let content_type = match content_type {
                Some(named) => named,
                None => "image/jpeg".as_bytes_vec(),
            };
            Reply::Relay { status, content_type, body }
        },
    }
}

} // verus!
