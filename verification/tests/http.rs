use mini_s3::domain::error::DomainError;
use mini_s3::domain::{Bucket, Object};
use mini_s3::http::error::{error_parts, s3_error_xml, s3_error_xml_with_request_id, ApiError};
use mini_s3::http::handlers::buckets::{create_bucket_result_xml, list_all_my_buckets_xml};
use mini_s3::http::handlers::objects::{
    head_object_status, header_value_text, list_bucket_result_xml, object_headers, put_object_etag_header, quoted_etag,
    ListObjectsQuery,
};

fn bucket(name: &str, created_at: &str) -> Bucket {
    Bucket { bucket_id: format!("id-{}", name), name: name.to_string(), created_at: created_at.to_string() }
}

fn object(etag: &str) -> Object {
    Object {
        object_id: "oid".to_string(),
        bucket_id: "bid".to_string(),
        key: "hello.txt".to_string(),
        size: 11,
        content_type: "text/plain".to_string(),
        etag: etag.to_string(),
        storage_path: "data/test-bucket/hello.txt".to_string(),
        created_at: "t".to_string(),
        updated_at: "t".to_string(),
    }
}

fn is_uuid_v4(s: &str) -> bool {
    let b = s.as_bytes();
    b.len() == 36
        && b.iter().enumerate().all(|(i, c)| {
            if i == 8 || i == 13 || i == 18 || i == 23 {
                *c == b'-'
            } else {
                c.is_ascii_digit() || (b'a'..=b'f').contains(c)
            }
        })
        && b[14] == b'4'
        && matches!(b[19], b'8' | b'9' | b'a' | b'b')
}

#[test]
fn error_parts_of_each_error() {
    let p = error_parts(DomainError::BucketAlreadyExists);
    assert_eq!((p.status, p.code, p.resource), (409, "BucketAlreadyOwnedByYou", None));
    assert_eq!(p.message, "Your previous request to create the named bucket succeeded and you already own it.");
    let p = error_parts(DomainError::BucketNotEmpty);
    assert_eq!((p.status, p.code, p.message), (409, "BucketNotEmpty", "The bucket you tried to delete is not empty."));
    let p = error_parts(DomainError::Internal);
    assert_eq!((p.status, p.code, p.message), (500, "InternalError", "We encountered an internal error. Please try again."));
    let p = error_parts(DomainError::NoSuchBucket("b".to_string()));
    assert_eq!((p.status, p.code, p.message), (404, "NoSuchBucket", "The specified bucket does not exist."));
    assert_eq!(p.resource, Some("b".to_string()));
    let p = error_parts(DomainError::NoSuchKey("k".to_string()));
    assert_eq!((p.status, p.code, p.message), (404, "NoSuchKey", "The specified key does not exist."));
    assert_eq!(p.resource, Some("k".to_string()));
    let p = error_parts(DomainError::InvalidBucketName);
    assert_eq!((p.status, p.code, p.message), (400, "InvalidBucketName", "The specified bucket is not valid."));
    let p = error_parts(DomainError::AccessDenied);
    assert_eq!((p.status, p.code, p.message), (403, "AccessDenied", "Access denied."));
    let p = error_parts(DomainError::SignatureDoesNotMatch);
    assert_eq!(p.status, 403);
    assert_eq!(p.code, "SignatureDoesNotMatch");
    assert_eq!(p.message, "The request signature does not match the signature sent.");
    assert_eq!(p.resource, None);
}

#[test]
fn error_document_with_resource() {
    let xml = s3_error_xml_with_request_id("NoSuchKey", "The specified key does not exist.", Some("a.txt"), "rid");
    assert_eq!(
        xml,
        "<?xml version=\"1.0\" encoding=\"UTF-8\"?>\n<Error>\n  <Code>NoSuchKey</Code>\n  <Message>The specified key does not exist.</Message>\n  <Resource>a.txt</Resource>\n  <RequestId>rid</RequestId>\n</Error>"
    );
}

#[test]
fn error_document_without_resource() {
    let xml = s3_error_xml_with_request_id("InternalError", "m", None, "r-1");
    assert_eq!(
        xml,
        "<?xml version=\"1.0\" encoding=\"UTF-8\"?>\n<Error>\n  <Code>InternalError</Code>\n  <Message>m</Message>\n  \n  <RequestId>r-1</RequestId>\n</Error>"
    );
}

#[test]
fn error_document_gets_a_fresh_uuid() {
    let xml = s3_error_xml("AccessDenied", "Access denied.", None);
    let start = xml.find("<RequestId>").unwrap() + "<RequestId>".len();
    let end = xml.find("</RequestId>").unwrap();
    assert!(is_uuid_v4(&xml[start..end]));
    let expected = s3_error_xml_with_request_id("AccessDenied", "Access denied.", None, &xml[start..end]);
    assert_eq!(xml, expected);
    let other = s3_error_xml("AccessDenied", "Access denied.", None);
    assert_ne!(xml, other);
}

#[test]
fn api_error_answer() {
    let api = ApiError::from(DomainError::NoSuchBucket("photos".to_string()));
    assert_eq!(api.domain_error(), &DomainError::NoSuchBucket("photos".to_string()));
    let r = api.error_response();
    assert_eq!(r.status, 404);
    assert_eq!(r.content_type, "application/xml");
    assert!(r.body.contains("<Code>NoSuchBucket</Code>"));
    assert!(r.body.contains("<Message>The specified bucket does not exist.</Message>"));
    assert!(r.body.contains("<Resource>photos</Resource>"));
    let r = ApiError::from(DomainError::Internal).error_response();
    assert_eq!(r.status, 500);
    assert!(r.body.contains("<Code>InternalError</Code>"));
    assert!(!r.body.contains("<Resource>"));
}

#[test]
fn bucket_listing_document() {
    let empty = list_all_my_buckets_xml("local-dev", &vec![]);
    assert_eq!(
        empty,
        "<?xml version=\"1.0\" encoding=\"UTF-8\"?>\n<ListAllMyBucketsResult>\n  <Owner>\n    <ID>local-dev</ID>\n    <DisplayName>local-dev</DisplayName>\n  </Owner>\n  <Buckets>\n\n  </Buckets>\n</ListAllMyBucketsResult>"
    );
    let two = list_all_my_buckets_xml("me", &vec![bucket("a", "t1"), bucket("b", "t2")]);
    assert_eq!(
        two,
        "<?xml version=\"1.0\" encoding=\"UTF-8\"?>\n<ListAllMyBucketsResult>\n  <Owner>\n    <ID>me</ID>\n    <DisplayName>me</DisplayName>\n  </Owner>\n  <Buckets>\n    <Bucket><Name>a</Name><CreationDate>t1</CreationDate></Bucket>\n    <Bucket><Name>b</Name><CreationDate>t2</CreationDate></Bucket>\n  </Buckets>\n</ListAllMyBucketsResult>"
    );
}

#[test]
fn bucket_listing_of_one() {
    let one = list_all_my_buckets_xml("o", &vec![bucket("test-bucket", "2024")]);
    assert!(one.contains("  <Buckets>\n    <Bucket><Name>test-bucket</Name><CreationDate>2024</CreationDate></Bucket>\n  </Buckets>"));
}

#[test]
fn create_bucket_document() {
    assert_eq!(
        create_bucket_result_xml(&bucket("test-bucket", "t")),
        "<?xml version=\"1.0\" encoding=\"UTF-8\"?>\n<CreateBucketResult>\n  <BucketArn>arn:aws:s3:::test-bucket</BucketArn>\n</CreateBucketResult>"
    );
}

#[test]
fn object_listing_is_empty_for_every_list_type() {
    let expected = "<?xml version=\"1.0\" encoding=\"UTF-8\"?>\n<ListBucketResult>\n  <Contents/>\n</ListBucketResult>";
    assert_eq!(list_bucket_result_xml(&ListObjectsQuery { list_type: Some(2) }), expected);
    assert_eq!(list_bucket_result_xml(&ListObjectsQuery { list_type: Some(1) }), expected);
    assert_eq!(list_bucket_result_xml(&ListObjectsQuery { list_type: None }), expected);
}

#[test]
fn head_object_answers() {
    assert!(matches!(head_object_status(Ok(object("e"))), Ok(200)));
    assert!(matches!(head_object_status(Err(DomainError::NoSuchBucket("b".to_string()))), Ok(404)));
    assert!(matches!(head_object_status(Err(DomainError::NoSuchKey("k".to_string()))), Ok(404)));
    match head_object_status(Err(DomainError::Internal)) {
        Err(api) => assert_eq!(api.domain_error(), &DomainError::Internal),
        Ok(_) => panic!("an internal error is not an answer"),
    }
    match head_object_status(Err(DomainError::AccessDenied)) {
        Err(api) => assert_eq!(api.error_response().status, 403),
        Ok(_) => panic!("access denied is not an answer"),
    }
}

#[test]
fn etag_headers() {
    assert_eq!(quoted_etag("abc"), "\"abc\"");
    let h = object_headers(object("900150983cd24fb0d6963f7d28e17f72"));
    assert_eq!(h.content_type, "text/plain");
    assert_eq!(h.etag, "\"900150983cd24fb0d6963f7d28e17f72\"");
    assert_eq!(
        put_object_etag_header(&object("900150983cd24fb0d6963f7d28e17f72")),
        Some("\"900150983cd24fb0d6963f7d28e17f72\"".to_string())
    );
}

#[test]
fn etag_header_refused_when_not_a_header_value() {
    assert_eq!(put_object_etag_header(&object("bad\nvalue")), None);
    assert_eq!(put_object_etag_header(&object("del\u{7f}")), None);
    assert_eq!(put_object_etag_header(&object("tab\tok")), Some("\"tab\tok\"".to_string()));
    assert_eq!(put_object_etag_header(&object("caf\u{e9}")), Some("\"caf\u{e9}\"".to_string()));
}

#[test]
fn header_text_is_visible_ascii() {
    assert_eq!(header_value_text(b"text/plain"), Some("text/plain".to_string()));
    assert_eq!(header_value_text(b""), Some(String::new()));
    assert_eq!(header_value_text(b"a\tb ~"), Some("a\tb ~".to_string()));
    assert_eq!(header_value_text(b"bad\n"), None);
    assert_eq!(header_value_text(b"del\x7f"), None);
    assert_eq!(header_value_text("caf\u{e9}".as_bytes()), None);
}
