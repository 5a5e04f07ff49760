//! The replies of the asset server: the UI pages and the files they load.
//!
//! Looking an asset up and writing a reply to a socket are left to the
//! program. What a reply holds is decided here.

use vstd::prelude::*;
use vstd::string::*;

verus! {

/// Status of a reply that carries the asset asked for.
pub const STATUS_OK: u16 = 200;

/// Status of the reply to a path that names no asset.
pub const STATUS_NOT_FOUND: u16 = 404;

/// The asset served at the root path.
pub const INDEX_PAGE: &'static str = "index.html";

/// The asset served to the robot console window.
pub const STDOUT_PAGE: &'static str = "stdout.html";

/// The media type of both pages.
pub const HTML: &'static str = "text/html";

/// The body of the reply to a path that names no asset.
pub const NOT_FOUND_BODY: &'static str = "404 Not Found";

/// The plain values of a reply.
pub struct ReplyModel {
    pub status: u16,
    pub content_type: Option<Seq<char>>,
    pub body: Seq<u8>,
}

/// A reply of the asset server.
#[derive(Debug)]
pub struct HttpReply {
    /// The status code.
    pub status: u16,
    /// The media type of the body, where one is declared.
    pub content_type: Option<String>,
    /// The body.
    pub body: Vec<u8>,
}

impl View for HttpReply {
    type V = ReplyModel;

    open spec fn view(&self) -> ReplyModel {
        ReplyModel {
            status: self.status,
            content_type: match self.content_type {
                Some(media_type) => Some(media_type@),
                None => None,
            },
            body: self.body@,
        }
    }
}

/// The reply that carries `body` as `content_type`.
pub open spec fn found_reply(content_type: Seq<char>, body: Seq<u8>) -> ReplyModel {
    ReplyModel { status: STATUS_OK, content_type: Some(content_type), body }
}

/// The reply to a path that names no asset. It declares no media type.
pub open spec fn not_found_reply() -> ReplyModel {
    ReplyModel { status: STATUS_NOT_FOUND, content_type: None, body: NOT_FOUND_BODY.spec_bytes() }
}

/// The media type that `mime_guess` guesses for a path from its extension,
/// `application/octet-stream` where it knows none.
pub uninterp spec fn guessed_media_type(path: Seq<char>) -> Seq<char>;

/// Calls `mime_guess::from_path` on `path` and `first_or_octet_stream` on the
/// guess, and copies the media type out as text.
///
/// Not proved: that the text depends on the characters of `path` alone. The
/// guess is a lookup of the extension in a table compiled into the crate.
#[verifier::external_body]
fn guess_media_type(path: &str) -> (media_type: String)
    ensures
        media_type@ == guessed_media_type(path@),
{
    mime_guess::from_path(path).first_or_octet_stream().as_ref().to_owned()
}

/// The reply that carries an asset under a media type.
pub fn found(content_type: String, body: Vec<u8>) -> (reply: HttpReply)
    ensures
        reply@ == found_reply(content_type@, body@),
{
    HttpReply { status: STATUS_OK, content_type: Some(content_type), body }
}

/// The reply to a path that names no asset.
pub fn not_found() -> (reply: HttpReply)
    ensures
        reply@ == not_found_reply(),
{
    HttpReply { status: STATUS_NOT_FOUND, content_type: None, body: NOT_FOUND_BODY.as_bytes_vec() }
}

/// The reply to a request for the asset at `path`, `content` being what the
/// lookup of `path` gave: the asset under the media type guessed from the
/// path, or the not-found reply.
pub fn assets(path: &str, content: Option<Vec<u8>>) -> (reply: HttpReply)
    ensures
        reply@ == match content {
            Some(body) => found_reply(guessed_media_type(path@), body@),
            None => not_found_reply(),
        },
{
    match content {
        Some(body) => found(guess_media_type(path), body),
        None => not_found(),
    }
}

/// The reply to a request for the root path: the index page, as HTML.
pub fn index(content: Vec<u8>) -> (reply: HttpReply)
    ensures
        reply@ == found_reply(HTML@, content@),
{
    found(HTML.to_owned(), content)
}

/// The reply to a request for the console page, as HTML.
pub fn stdout(content: Vec<u8>) -> (reply: HttpReply)
    ensures
        reply@ == found_reply(HTML@, content@),
{
    found(HTML.to_owned(), content)
}

} // verus!
