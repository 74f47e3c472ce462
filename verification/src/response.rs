//! The payloads a handler can answer with: markdown text, or an already
//! uploaded media item with a caption and its metadata.

use vstd::prelude::*;

verus! {

/// Mathematical model of a response.
pub enum ResponseView {
    Text(Seq<char>),
    Media {
        caption: Seq<char>,
        content_uri: Seq<char>,
        mimetype: Seq<char>,
        width: u64,
        height: u64,
        size_bytes: u64,
    },
}

/// A response payload. Text is sent as markdown; media carries the content
/// reference obtained when the handler uploaded it, plus display metadata.
pub enum Response {
    Text(String),
    Media {
        caption: String,
        content_uri: String,
        mimetype: String,
        width: u64,
        height: u64,
        size_bytes: u64,
    },
}

impl View for Response {
    type V = ResponseView;

    open spec fn view(&self) -> ResponseView {
        match self {
            Response::Text(body) => ResponseView::Text(body@),
            Response::Media { caption, content_uri, mimetype, width, height, size_bytes } => {
                ResponseView::Media {
                    caption: caption@,
                    content_uri: content_uri@,
                    mimetype: mimetype@,
                    width: *width,
                    height: *height,
                    size_bytes: *size_bytes,
                }
            },
        }
    }
}

/// Wrap a markdown body as a message response.
pub fn new_message(message: String) -> (r: Option<Response>)
    ensures
        r matches Some(resp) && resp@ == ResponseView::Text(message@),
{
    Some(Response::Text(message))
}

} // verus!
