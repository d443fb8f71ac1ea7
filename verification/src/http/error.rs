//! How a refused request is answered: an HTTP status and an S3 error document.

use vstd::prelude::*;
use crate::domain::error::{DomainError, DomainErrorView};
use crate::domain::ids::{is_uuid_v4_text, new_uuid_v4};

verus! {

/// The HTTP status that answers an error.
pub open spec fn error_status(e: DomainErrorView) -> u16 {
    match e {
        DomainErrorView::BucketAlreadyExists => 409,
        DomainErrorView::BucketNotEmpty => 409,
        DomainErrorView::Internal => 500,
        DomainErrorView::NoSuchBucket(_) => 404,
        DomainErrorView::NoSuchKey(_) => 404,
        DomainErrorView::InvalidBucketName => 400,
        DomainErrorView::AccessDenied => 403,
        DomainErrorView::SignatureDoesNotMatch => 403,
    }
}

/// The S3 error code that answers an error.
pub open spec fn error_code(e: DomainErrorView) -> Seq<char> {
    match e {
        DomainErrorView::BucketAlreadyExists => "BucketAlreadyOwnedByYou"@,
        DomainErrorView::BucketNotEmpty => "BucketNotEmpty"@,
        DomainErrorView::Internal => "InternalError"@,
        DomainErrorView::NoSuchBucket(_) => "NoSuchBucket"@,
        DomainErrorView::NoSuchKey(_) => "NoSuchKey"@,
        DomainErrorView::InvalidBucketName => "InvalidBucketName"@,
        DomainErrorView::AccessDenied => "AccessDenied"@,
        DomainErrorView::SignatureDoesNotMatch => "SignatureDoesNotMatch"@,
    }
}

/// The message of the S3 error document that answers an error.
pub open spec fn error_message(e: DomainErrorView) -> Seq<char> {
    match e {
        DomainErrorView::BucketAlreadyExists =>
            "Your previous request to create the named bucket succeeded and you already own it."@,
        DomainErrorView::BucketNotEmpty => "The bucket you tried to delete is not empty."@,
        DomainErrorView::Internal => "We encountered an internal error. Please try again."@,
        DomainErrorView::NoSuchBucket(_) => "The specified bucket does not exist."@,
        DomainErrorView::NoSuchKey(_) => "The specified key does not exist."@,
        DomainErrorView::InvalidBucketName => "The specified bucket is not valid."@,
        DomainErrorView::AccessDenied => "Access denied."@,
        DomainErrorView::SignatureDoesNotMatch =>
            "The request signature does not match the signature sent."@,
    }
}

/// The resource that the S3 error document names, if any: the missing bucket or key.
pub open spec fn error_resource(e: DomainErrorView) -> Option<Seq<char>> {
    match e {
        DomainErrorView::NoSuchBucket(name) => Some(name),
        DomainErrorView::NoSuchKey(key) => Some(key),
        _ => None,
    }
}

/// The `<Resource>` element of an error document, or nothing.
pub open spec fn resource_tag(resource: Option<Seq<char>>) -> Seq<char> {
    match resource {
        Some(r) => "<Resource>"@ + r + "</Resource>"@,
        None => Seq::empty(),
    }
}

/// The S3 error document with the given parts.
pub open spec fn error_xml(
    code: Seq<char>,
    message: Seq<char>,
    resource: Option<Seq<char>>,
    request_id: Seq<char>,
) -> Seq<char> {
    "<?xml version=\"1.0\" encoding=\"UTF-8\"?>\n<Error>\n  <Code>"@ + code
        + "</Code>\n  <Message>"@ + message + "</Message>\n  "@ + resource_tag(resource)
        + "\n  <RequestId>"@ + request_id + "</RequestId>\n</Error>"@
}

/// Every refused request is answered with a client or a server error status;
/// exactly a missing bucket or key is answered 404, and exactly those answers
/// name a resource; only an internal error is a server error.
pub proof fn lemma_error_answers(e: DomainErrorView)
    ensures
        400 <= error_status(e) < 600,
        error_status(e) == 404 <==> (e is NoSuchBucket || e is NoSuchKey),
        error_resource(e) is Some <==> (e is NoSuchBucket || e is NoSuchKey),
        error_status(e) >= 500 <==> e is Internal,
{
}

/// The S3 answers to the store's errors: a bucket that exists already or is
/// not empty is a conflict (409); a missing bucket or key is not found (404);
/// an invalid bucket name is a bad request (400); a refused access or
/// signature is forbidden (403); anything else is an internal error (500).
/// Each error has its own S3 code.
pub proof fn lemma_error_table(n: Seq<char>)
    ensures
        error_status(DomainErrorView::BucketAlreadyExists) == 409
            && error_code(DomainErrorView::BucketAlreadyExists) == "BucketAlreadyOwnedByYou"@,
        error_status(DomainErrorView::BucketNotEmpty) == 409
            && error_code(DomainErrorView::BucketNotEmpty) == "BucketNotEmpty"@,
        error_status(DomainErrorView::Internal) == 500
            && error_code(DomainErrorView::Internal) == "InternalError"@,
        error_status(DomainErrorView::NoSuchBucket(n)) == 404
            && error_code(DomainErrorView::NoSuchBucket(n)) == "NoSuchBucket"@
            && error_resource(DomainErrorView::NoSuchBucket(n)) == Some(n),
        error_status(DomainErrorView::NoSuchKey(n)) == 404
            && error_code(DomainErrorView::NoSuchKey(n)) == "NoSuchKey"@
            && error_resource(DomainErrorView::NoSuchKey(n)) == Some(n),
        error_status(DomainErrorView::InvalidBucketName) == 400
            && error_code(DomainErrorView::InvalidBucketName) == "InvalidBucketName"@,
        error_status(DomainErrorView::AccessDenied) == 403
            && error_code(DomainErrorView::AccessDenied) == "AccessDenied"@,
        error_status(DomainErrorView::SignatureDoesNotMatch) == 403
            && error_code(DomainErrorView::SignatureDoesNotMatch) == "SignatureDoesNotMatch"@,
{
}

/// The `<Resource>` element holds the whole resource between its tags, and is
/// empty when there is no resource.
pub proof fn lemma_resource_tag_parts(r: Seq<char>)
    ensures
        resource_tag(Some(r)).len() == r.len() + 21,
        resource_tag(Some(r)).take(10) == "<Resource>"@,
        resource_tag(Some(r)).subrange(10, 10 + r.len() as int) == r,
        resource_tag(Some(r)).skip(10 + r.len() as int) == "</Resource>"@,
        resource_tag(None).len() == 0,
{
    reveal_strlit("<Resource>");
    reveal_strlit("</Resource>");
    let t = resource_tag(Some(r));
    assert(t.take(10) =~= "<Resource>"@);
    assert(t.subrange(10, 10 + r.len() as int) =~= r);
    assert(t.skip(10 + r.len() as int) =~= "</Resource>"@);
}

/// The error document holds, in order and whole: the code in `<Code>`, the
/// message in `<Message>`, the resource element, and the request id in
/// `<RequestId>`.
pub proof fn lemma_error_xml_parts(
    code: Seq<char>,
    message: Seq<char>,
    resource: Option<Seq<char>>,
    request_id: Seq<char>,
)
    ensures
        ({
            let x = error_xml(code, message, resource, request_id);
            let c = code.len() as int;
            let m = message.len() as int;
            let r = resource_tag(resource).len() as int;
            let i = request_id.len() as int;
            &&& x.len() == 55 + c + 19 + m + 13 + r + 14 + i + 21
            &&& x.subrange(49, 55) == "<Code>"@
            &&& x.subrange(55, 55 + c) == code
            &&& x.subrange(55 + c, 74 + c) == "</Code>\n  <Message>"@
            &&& x.subrange(74 + c, 74 + c + m) == message
            &&& x.subrange(74 + c + m, 87 + c + m) == "</Message>\n  "@
            &&& x.subrange(87 + c + m, 87 + c + m + r) == resource_tag(resource)
            &&& x.subrange(87 + c + m + r, 101 + c + m + r) == "\n  <RequestId>"@
            &&& x.subrange(101 + c + m + r, 101 + c + m + r + i) == request_id
            &&& x.skip(101 + c + m + r + i) == "</RequestId>\n</Error>"@
        }),
{
    reveal_strlit("<?xml version=\"1.0\" encoding=\"UTF-8\"?>\n<Error>\n  <Code>");
    reveal_strlit("<Code>");
    reveal_strlit("</Code>\n  <Message>");
    reveal_strlit("</Message>\n  ");
    reveal_strlit("\n  <RequestId>");
    reveal_strlit("</RequestId>\n</Error>");
    let x = error_xml(code, message, resource, request_id);
    let c = code.len() as int;
    let m = message.len() as int;
    let r = resource_tag(resource).len() as int;
    let i = request_id.len() as int;
    assert(x.subrange(49, 55) =~= "<Code>"@);
    assert(x.subrange(55, 55 + c) =~= code);
    assert(x.subrange(55 + c, 74 + c) =~= "</Code>\n  <Message>"@);
    assert(x.subrange(74 + c, 74 + c + m) =~= message);
    assert(x.subrange(74 + c + m, 87 + c + m) =~= "</Message>\n  "@);
    assert(x.subrange(87 + c + m, 87 + c + m + r) =~= resource_tag(resource));
    assert(x.subrange(87 + c + m + r, 101 + c + m + r) =~= "\n  <RequestId>"@);
    assert(x.subrange(101 + c + m + r, 101 + c + m + r + i) =~= request_id);
    assert(x.skip(101 + c + m + r + i) =~= "</RequestId>\n</Error>"@);
}

/// The parts of the answer to an error.
#[derive(Debug)]
pub struct ErrorParts {
    pub status: u16,
    pub code: &'static str,
    pub message: &'static str,
    pub resource: Option<String>,
}

/// The status, code, message and resource that answer `err`.
pub fn error_parts(err: DomainError) -> (parts: ErrorParts)
    ensures
        parts.status == error_status(err@),
        parts.code@ == error_code(err@),
        parts.message@ == error_message(err@),
        parts.resource.deep_view() == error_resource(err@),
{
    match err {
        DomainError::BucketAlreadyExists => ErrorParts {
            status: 409,
            code: "BucketAlreadyOwnedByYou",
            message: "Your previous request to create the named bucket succeeded and you already own it.",
            resource: None,
        },
        DomainError::BucketNotEmpty => ErrorParts {
            status: 409,
            code: "BucketNotEmpty",
            message: "The bucket you tried to delete is not empty.",
            resource: None,
        },
        DomainError::Internal => ErrorParts {
            status: 500,
            code: "InternalError",
            message: "We encountered an internal error. Please try again.",
            resource: None,
        },
        DomainError::NoSuchBucket(resource) => ErrorParts {
            status: 404,
            code: "NoSuchBucket",
            message: "The specified bucket does not exist.",
            resource: Some(resource),
        },
        DomainError::NoSuchKey(resource) => ErrorParts {
            status: 404,
            code: "NoSuchKey",
            message: "The specified key does not exist.",
            resource: Some(resource),
        },
        DomainError::InvalidBucketName => ErrorParts {
            status: 400,
            code: "InvalidBucketName",
            message: "The specified bucket is not valid.",
            resource: None,
        },
        DomainError::AccessDenied => ErrorParts {
            status: 403,
            code: "AccessDenied",
            message: "Access denied.",
            resource: None,
        },
        DomainError::SignatureDoesNotMatch => ErrorParts {
            status: 403,
            code: "SignatureDoesNotMatch",
            message: "The request signature does not match the signature sent.",
            resource: None,
        },
    }
}

/// The S3 error document with the given parts and request id.
pub fn s3_error_xml_with_request_id(
    code: &str,
    message: &str,
    resource: Option<&str>,
    request_id: &str,
) -> (xml: String)
    ensures
        xml@ == error_xml(code@, message@, resource.deep_view(), request_id@),
{
    let mut xml = String::from_str("<?xml version=\"1.0\" encoding=\"UTF-8\"?>\n<Error>\n  <Code>");
    xml.append(code);
    xml.append("</Code>\n  <Message>");
    xml.append(message);
    xml.append("</Message>\n  ");
    match resource {
        Some(r) => {
            xml.append("<Resource>");
            xml.append(r);
            xml.append("</Resource>");
        },
        None => {},
    }
    xml.append("\n  <RequestId>");
    xml.append(request_id);
    xml.append("</RequestId>\n</Error>");
    xml
}

/// The S3 error document with the given parts, under a fresh random request id.
pub fn s3_error_xml(code: &str, message: &str, resource: Option<&str>) -> (xml: String)
    ensures
        exists|request_id: Seq<char>|
            is_uuid_v4_text(request_id) && xml@ == error_xml(
                code@,
                message@,
                resource.deep_view(),
                request_id,
            ),
{
    let request_id = new_uuid_v4();
    s3_error_xml_with_request_id(code, message, resource, request_id.as_str())
}

/// A request refused by the store, on its way to becoming an HTTP answer.
#[derive(Debug)]
pub struct ApiError(DomainError);

impl View for ApiError {
    type V = DomainErrorView;

    closed spec fn view(&self) -> DomainErrorView {
        self.0@
    }
}

impl From<DomainError> for ApiError {
    fn from(value: DomainError) -> (r: ApiError) {
        ApiError(value)
    }
}

impl vstd::std_specs::convert::FromSpecImpl<DomainError> for ApiError {
    open spec fn obeys_from_spec() -> bool {
        true
    }

    closed spec fn from_spec(v: DomainError) -> ApiError {
        ApiError(v)
    }
}

/// An `ApiError` made from an error by `from` carries that error.
pub proof fn lemma_api_error_from(e: DomainError)
    ensures
        <ApiError as vstd::std_specs::convert::FromSpec<DomainError>>::from_spec(e)@ == e@,
{
}

/// The HTTP answer to a refused request.
#[derive(Debug)]
pub struct ErrorResponse {
    pub status: u16,
    pub content_type: &'static str,
    pub body: String,
}

impl ApiError {
    /// The refused request's error, as the store reported it.
    pub fn domain_error(&self) -> (e: &DomainError)
        ensures
            e@ == self@,
    {
        &self.0
    }

    /// The error's status, with an S3 error document in XML as the body.
    pub fn error_response(self) -> (response: ErrorResponse)
        ensures
            response.status == error_status(self@),
            response.content_type@ == "application/xml"@,
            exists|request_id: Seq<char>|
                is_uuid_v4_text(request_id) && response.body@ == error_xml(
                    error_code(self@),
                    error_message(self@),
                    error_resource(self@),
                    request_id,
                ),
    {
        let ApiError(err) = self;
        let parts = error_parts(err);
        let body = match &parts.resource {
            Some(r) => s3_error_xml(parts.code, parts.message, Some(r.as_str())),
            None => s3_error_xml(parts.code, parts.message, None),
        };
        ErrorResponse { status: parts.status, content_type: "application/xml", body }
    }
}

} // verus!
