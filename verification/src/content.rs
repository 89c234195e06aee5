//! Content normalization.
//!
//! Both publish operations — a form-encoded text post and a binary media
//! upload — are reduced to one [`Content`] record: a commit message, a target
//! path in the content store, and a base64-encoded payload. A text post
//! becomes a Markdown document with a frontmatter header; a media upload
//! keeps its bytes and its original file name.

use crate::auth::Token;
use crate::clock::{
    filename_date, format_filename_date, format_frontmatter_date, frontmatter_date, Timestamp,
};
use vstd::prelude::*;
use vstd::string::*;
use vstd::utf8::encode_utf8;

verus! {

/// What `base64::encode` returns for the given bytes: their base64 encoding
/// with the standard alphabet and padding.
pub uninterp spec fn base64_of(bytes: Seq<u8>) -> Seq<char>;

/// Relies on `base64::encode`: the standard-alphabet, padded base64
/// encoding, a function of the input bytes alone.
#[verifier::external_body]
fn base64_encode(bytes: &[u8]) -> (r: String)
    ensures
        r@ == base64_of(bytes@),
{
    base64::encode(bytes)
}

/// `r` undoes the base64 encoding of `encoded`: whenever `encoded` is the
/// encoding of some byte sequence, `r` holds exactly those bytes.
pub open spec fn decodes_encoding_of(encoded: Seq<char>, r: Option<Vec<u8>>) -> bool {
    forall|bytes: Seq<u8>| encoded == base64_of(bytes) ==> (r matches Some(v) && v@ == bytes)
}

/// Relies on `base64::decode`: decoding with the standard alphabet inverts
/// `base64::encode`, so a string that `base64::encode` produced decodes to
/// exactly the bytes that were encoded.
#[verifier::external_body]
fn base64_decode(encoded: &str) -> (r: Option<Vec<u8>>)
    ensures
        decodes_encoding_of(encoded@, r),
{
    base64::decode(encoded).ok()
}

/// The unit of work submitted to the content store: one file to commit.
#[derive(Debug, Clone)]
pub struct Content {
    /// The commit description.
    pub message: String,
    /// The payload, already base64-encoded for the wire.
    pub content: String,
    /// Where in the store the file goes.
    pub path: String,
}

impl Content {
    /// The `content` field carries exactly this payload, base64-encoded.
    pub open spec fn encodes(self, payload: Seq<u8>) -> bool {
        self.content@ == base64_of(payload)
    }

    /// A commit of a text document: the payload is the document's UTF-8
    /// bytes, base64-encoded.
    pub fn new(message: String, content: String, path: String) -> (c: Content)
        ensures
            c.message@ == message@,
            c.path@ == path@,
            c.encodes(encode_utf8(content@)),
    {
        let encoded = base64_encode(content.as_str().as_bytes());
        Content { message, content: encoded, path }
    }

    /// A commit of raw bytes, base64-encoded.
    pub fn new_from_image(message: String, content: Vec<u8>, path: String) -> (c: Content)
        ensures
            c.message@ == message@,
            c.path@ == path@,
            c.encodes(content@),
    {
        let encoded = base64_encode(content.as_slice());
        Content { message, content: encoded, path }
    }
}

/// Decodes the base64 `content` field back to payload bytes. For any
/// payload a constructor encoded, this returns exactly that payload: the
/// encode/decode round trip is the identity.
pub fn decode_payload(c: &Content) -> (r: Option<Vec<u8>>)
    ensures
        forall|payload: Seq<u8>| c.encodes(payload) ==> (r matches Some(v) && v@ == payload),
{
    base64_decode(c.content.as_str())
}

/// The Markdown document committed for a text post: a frontmatter header
/// naming the author, the fixed `status` layout and the timestamp, followed
/// by the post body.
pub open spec fn post_document(author: Seq<char>, stamp: Timestamp, body: Seq<char>) -> Seq<
    char,
> {
    "---\nauthor: "@ + author + "\nlayout: status\ndate: "@ + frontmatter_date(stamp)
        + "\n---\n"@ + body
}

/// Builds the Markdown document for a text post.
pub fn build_post_document(author: &str, stamp: &Timestamp, body: &str) -> (r: String)
    requires
        stamp.wf(),
    ensures
        r@ == post_document(author@, *stamp, body@),
{
    let mut s = String::from_str("---\nauthor: ");
    s.append(author);
    s.append("\nlayout: status\ndate: ");
    let date = format_frontmatter_date(stamp);
    s.append(date.as_str());
    s.append("\n---\n");
    s.append(body);
    proof {
        assert(s@ =~= post_document(author@, *stamp, body@));
    }
    s
}

/// The store path of a text post: under `contents/_posts`, named by the
/// timestamp, with a Markdown extension.
pub open spec fn post_path(stamp: Timestamp) -> Seq<char> {
    "contents/_posts/"@ + filename_date(stamp) + ".md"@
}

/// Builds the store path for a text post.
pub fn build_post_path(stamp: &Timestamp) -> (r: String)
    requires
        stamp.wf(),
    ensures
        r@ == post_path(*stamp),
{
    let mut s = String::from_str("contents/_posts/");
    let date = format_filename_date(stamp);
    s.append(date.as_str());
    s.append(".md");
    proof {
        assert(s@ =~= post_path(*stamp));
    }
    s
}

/// The store path of a media upload: the configured image base path, a
/// slash, and the upload's original file name.
pub open spec fn media_path(image_base: Seq<char>, file_name: Seq<char>) -> Seq<char> {
    image_base + "/"@ + file_name
}

/// Builds the store path for a media upload.
pub fn build_media_path(image_base: &str, file_name: &str) -> (r: String)
    ensures
        r@ == media_path(image_base@, file_name@),
{
    let mut s = String::from_str(image_base);
    s.append("/");
    s.append(file_name);
    proof {
        assert(s@ =~= media_path(image_base@, file_name@));
    }
    s
}

/// Normalizes a text post: the committed file is the frontmatter document
/// at the timestamp-derived path, with the fixed commit message. Demands a
/// verified credential.
pub fn prepare_text_post(author: &str, body: &str, stamp: &Timestamp, _token: &Token) -> (c:
    Content)
    requires
        stamp.wf(),
    ensures
        c.message@ == "Add post"@,
        c.path@ == post_path(*stamp),
        c.encodes(encode_utf8(post_document(author@, *stamp, body@))),
{
    let document = build_post_document(author, stamp, body);
    let path = build_post_path(stamp);
    Content::new(String::from_str("Add post"), document, path)
}

/// Normalizes a media upload: the committed file holds the uploaded bytes
/// under the image base path, with the fixed commit message. Demands a
/// verified credential.
pub fn prepare_media_upload(
    image_base: &str,
    file_name: &str,
    data: Vec<u8>,
    _token: &Token,
) -> (c: Content)
    ensures
        c.message@ == "Add post"@,
        c.path@ == media_path(image_base@, file_name@),
        c.encodes(data@),
{
    let path = build_media_path(image_base, file_name);
    Content::new_from_image(String::from_str("Add post"), data, path)
}

} // verus!
