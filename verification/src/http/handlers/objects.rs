//! The decisions and documents that answer the object requests.

use vstd::prelude::*;
use crate::domain::error::{is_not_found, DomainError};
use crate::application::objects::is_put_record;
use crate::domain::bucket::BucketView;
use crate::domain::etag::{etag_of, is_lower_hex_char, lemma_hex_lower_shape, md5_digest};
use crate::domain::object::ObjectView;
use crate::domain::object::Object;
use crate::http::error::{lemma_api_error_from, ApiError};

verus! {

/// The query of a bucket listing request.
#[derive(Debug)]
pub struct ListObjectsQuery {
    pub list_type: Option<i32>,
}

/// The (empty) `ListBucketResult` document.
pub open spec fn empty_list_bucket_result() -> Seq<char> {
    "<?xml version=\"1.0\" encoding=\"UTF-8\"?>\n<ListBucketResult>\n  <Contents/>\n</ListBucketResult>"@
}

/// The answer to a bucket listing: an empty listing, whatever list type is asked for.
pub fn list_bucket_result_xml(query: &ListObjectsQuery) -> (xml: String)
    ensures
        xml@ == empty_list_bucket_result(),
{
    match query.list_type {
        Some(2) => String::from_str(
            "<?xml version=\"1.0\" encoding=\"UTF-8\"?>\n<ListBucketResult>\n  <Contents/>\n</ListBucketResult>",
        ),
        _ => String::from_str(
            "<?xml version=\"1.0\" encoding=\"UTF-8\"?>\n<ListBucketResult>\n  <Contents/>\n</ListBucketResult>",
        ),
    }
}

/// Whether byte `b` may stand in header text: visible ASCII or a tab.
pub open spec fn is_visible_ascii(b: u8) -> bool {
    (32 <= b && b < 127) || b == 9
}

/// The text of a header value's bytes: present exactly when every byte is
/// visible ASCII or a tab, and then one character per byte.
pub open spec fn header_text(bytes: Seq<u8>) -> Option<Seq<char>> {
    if forall|i: int| 0 <= i < bytes.len() ==> is_visible_ascii(#[trigger] bytes[i]) {
        Some(bytes.map_values(|b: u8| b as char))
    } else {
        None
    }
}

/// Calls `String::push`, which appends `c` to the end of `text`.
#[verifier::external_body]
fn push_char(text: &mut String, c: char)
    ensures
        final(text)@ == old(text)@.push(c),
{
    text.push(c);
}

/// The text of a request header's value (such as its `Content-Type`), when
/// the value is visible ASCII, as `HeaderValue::to_str` reads it; `None` when
/// a byte is not.
pub fn header_value_text(bytes: &[u8]) -> (text: Option<String>)
    ensures
        text.deep_view() == header_text(bytes@),
{
    let mut text = String::new();
    let n = bytes.len();
    let mut i: usize = 0;
    while i < n
        invariant
            n == bytes@.len(),
            i <= n,
            forall|j: int| 0 <= j < i ==> is_visible_ascii(#[trigger] bytes@[j]),
            text@ == bytes@.take(i as int).map_values(|b: u8| b as char),
        decreases n - i,
    {
        let b = bytes[i];
        if !((32 <= b && b < 127) || b == 9) {
            return None;
        }
        push_char(&mut text, b as char);
        assert(bytes@.take(i + 1).map_values(|b: u8| b as char) =~= bytes@.take(i as int).map_values(
            |b: u8| b as char,
        ).push(b as char));
        i = i + 1;
    }
    assert(bytes@.take(n as int) =~= bytes@);
    Some(text)
}

/// The answer to a HEAD on an object, from the outcome of looking it up:
/// 200 when it is found, 404 when its bucket or key is missing, and the
/// error itself otherwise.
pub fn head_object_status(looked_up: Result<Object, DomainError>) -> (answer: Result<u16, ApiError>)
    ensures
        match looked_up {
            Ok(_) => (answer matches Ok(status) && status == 200),
            Err(e) => if is_not_found(e@) {
                (answer matches Ok(status) && status == 404)
            } else {
                (answer matches Err(a) && a@ == e@)
            },
        },
{
    match looked_up {
        Ok(_object) => Ok(200),
        Err(e) => {
            if e.is_not_found() {
                Ok(404)
            } else {
                proof {
                    lemma_api_error_from(e);
                }
                Err(ApiError::from(e))
            }
        },
    }
}

/// `etag` between double quotes, as the `ETag` header carries it.
pub open spec fn quoted(etag: Seq<char>) -> Seq<char> {
    "\""@ + etag + "\""@
}

/// The `ETag` header holds the whole ETag between two double quotes.
pub proof fn lemma_quoted_parts(etag: Seq<char>)
    ensures
        quoted(etag).len() == etag.len() + 2,
        quoted(etag)[0] == '"',
        quoted(etag)[etag.len() as int + 1] == '"',
        quoted(etag).subrange(1, etag.len() as int + 1) == etag,
{
    reveal_strlit("\"");
    assert(quoted(etag).subrange(1, etag.len() as int + 1) =~= etag);
}

/// The value of the `ETag` header for an object with ETag `etag`.
pub fn quoted_etag(etag: &str) -> (value: String)
    ensures
        value@ == quoted(etag@),
{
    let mut value = String::from_str("\"");
    value.append(etag);
    value.append("\"");
    value
}

/// The headers that carry an object's content: its content type and its quoted ETag.
#[derive(Debug)]
pub struct ObjectHeaders {
    pub content_type: String,
    pub etag: String,
}

/// The headers of the answer to a GET on `object`.
pub fn object_headers(object: Object) -> (headers: ObjectHeaders)
    ensures
        headers.content_type@ == object.content_type@,
        headers.etag@ == quoted(object.etag@),
{
    let etag = quoted_etag(object.etag.as_str());
    ObjectHeaders { content_type: object.content_type, etag }
}

/// Whether `c` may stand in an HTTP header value: a tab, or any character
/// other than the ASCII control characters.
pub open spec fn header_value_char(c: char) -> bool {
    c == '\t' || (' ' <= c && c != '\x7f')
}

/// Whether every character of `text` may stand in an HTTP header value.
pub open spec fn fits_header(text: Seq<char>) -> bool {
    forall|i: int| 0 <= i < text.len() ==> header_value_char(#[trigger] text[i])
}

/// Calls `axum::http::HeaderValue::from_str` and reports whether it succeeded.
/// By its source it succeeds exactly when every byte of the text is a tab or
/// at least 32 and not 127, which for the UTF-8 bytes of a text is the same
/// as every character satisfying `header_value_char`.
#[verifier::external_body]
fn header_value_accepts(text: &str) -> (accepted: bool)
    ensures
        accepted == fits_header(text@),
{
    axum::http::HeaderValue::from_str(text).is_ok()
}

/// The `ETag` header of the answer to a PUT of `object`, when its value is
/// one that a header can carry.
pub fn put_object_etag_header(object: &Object) -> (header: Option<String>)
    ensures
        if fits_header(quoted(object.etag@)) {
            (header matches Some(h) && h@ == quoted(object.etag@))
        } else {
            header is None
        },
{
    let value = quoted_etag(object.etag.as_str());
    if header_value_accepts(value.as_str()) {
        Some(value)
    } else {
        None
    }
}

/// An ETag of lower-case hexadecimal digits always fits in a header, so the
/// answer to a PUT of an object stored with such an ETag always carries it.
pub proof fn lemma_hex_etag_fits_header(etag: Seq<char>)
    requires
        forall|i: int| 0 <= i < etag.len() ==> is_lower_hex_char(#[trigger] etag[i]),
    ensures
        fits_header(quoted(etag)),
{
    reveal_strlit("\"");
    assert forall|i: int| 0 <= i < quoted(etag).len() implies header_value_char(#[trigger] quoted(etag)[i]) by {
        if 1 <= i < etag.len() + 1 {
            assert(quoted(etag)[i] == etag[i - 1]);
        }
    }
}

/// The answer to storing an object always carries, as its `ETag` header, the
/// quoted ETag of the content that was stored.
pub proof fn lemma_put_answer_carries_etag(
    object: ObjectView,
    bucket: BucketView,
    key: Seq<char>,
    body: Seq<u8>,
    content_type: Option<Seq<char>>,
)
    requires
        is_put_record(object, bucket, key, body, content_type),
    ensures
        object.etag == etag_of(body),
        fits_header(quoted(object.etag)),
{
    lemma_hex_lower_shape(md5_digest(body));
    lemma_hex_etag_fits_header(object.etag);
}

} // verus!
