use mini_s3::domain::error::DomainError;
use mini_s3::domain::etag::{hex_lower_string, s3_etag_hex};
use mini_s3::domain::{Bucket, Object};

#[test]
fn etag_of_empty_content_is_md5_of_nothing() {
    assert_eq!(s3_etag_hex(b""), "d41d8cd98f00b204e9800998ecf8427e");
}

#[test]
fn etag_of_hello_is_its_md5() {
    assert_eq!(s3_etag_hex(b"Hello, S3!\n"), format!("{:x}", md5::compute(b"Hello, S3!\n")));
    assert_eq!(s3_etag_hex(b"abc"), "900150983cd24fb0d6963f7d28e17f72");
}

#[test]
fn etag_is_32_lower_hex_digits() {
    let etag = s3_etag_hex(&[0u8, 255, 17, 42, 128]);
    assert_eq!(etag.len(), 32);
    assert!(etag.chars().all(|c| c.is_ascii_digit() || ('a'..='f').contains(&c)));
}

#[test]
fn hex_writes_two_digits_per_byte() {
    assert_eq!(hex_lower_string(&[]), "");
    assert_eq!(hex_lower_string(&[0x00, 0x0f, 0xa0, 0xff, 0x5b]), "000fa0ff5b");
}

#[test]
fn error_messages() {
    assert_eq!(DomainError::BucketAlreadyExists.message(), "bucket already exists");
    assert_eq!(DomainError::BucketNotEmpty.message(), "bucket not empty");
    assert_eq!(DomainError::Internal.message(), "internal error");
    assert_eq!(DomainError::NoSuchBucket("photos".to_string()).message(), "no such bucket: photos");
    assert_eq!(DomainError::NoSuchKey("a/b.txt".to_string()).message(), "no such key: a/b.txt");
    assert_eq!(DomainError::InvalidBucketName.message(), "invalid bucket name");
    assert_eq!(DomainError::AccessDenied.message(), "access denied");
    assert_eq!(DomainError::SignatureDoesNotMatch.message(), "signature does not match");
}

#[test]
fn io_errors_become_internal() {
    let e = std::io::Error::new(std::io::ErrorKind::NotFound, "gone");
    assert_eq!(DomainError::from(e), DomainError::Internal);
    let e = std::io::Error::new(std::io::ErrorKind::PermissionDenied, "no");
    assert_eq!(DomainError::from(e), DomainError::Internal);
}

#[test]
fn records_keep_their_fields() {
    let b = Bucket {
        bucket_id: "id-1".to_string(),
        name: "photos".to_string(),
        created_at: "2024-01-01T00:00:00+00:00".to_string(),
    };
    let c = b.clone();
    assert_eq!(c.name, "photos");
    let o = Object {
        object_id: "o".to_string(),
        bucket_id: "id-1".to_string(),
        key: "k".to_string(),
        size: 3,
        content_type: "text/plain".to_string(),
        etag: "e".to_string(),
        storage_path: "data/photos/k".to_string(),
        created_at: "t".to_string(),
        updated_at: "t".to_string(),
    };
    assert_eq!(o.clone().size, 3);
}
