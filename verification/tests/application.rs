use mini_s3::application::storage::{bucket_dir_path, object_storage_path, resolve_content_type};
use mini_s3::application::{BucketService, ObjectService};
use mini_s3::domain::error::DomainError;
use mini_s3::domain::etag::s3_etag_hex;
use mini_s3::domain::{Bucket, Object};
use mini_s3::application::objects::{object_record, PutObjectStep};
use mini_s3::application::owner::owner_or_default;

fn io_error() -> std::io::Error {
    std::io::Error::new(std::io::ErrorKind::Other, "disk")
}

fn bucket() -> Bucket {
    Bucket {
        bucket_id: "b-1".to_string(),
        name: "test-bucket".to_string(),
        created_at: "2024-01-01T00:00:00+00:00".to_string(),
    }
}

fn sample_object() -> Object {
    object_record(
        bucket(),
        "hello.txt".to_string(),
        11,
        "text/plain".to_string(),
        "e".to_string(),
        "o-1".to_string(),
        "now".to_string(),
    )
}

#[test]
fn paths() {
    assert_eq!(bucket_dir_path("test-bucket"), "data/test-bucket");
    assert_eq!(object_storage_path("test-bucket", "hello.txt"), "data/test-bucket/hello.txt");
    assert_eq!(object_storage_path("b", "dir/sub/file"), "data/b/dir/sub/file");
    assert!(object_storage_path("b", "k").starts_with(&(bucket_dir_path("b") + "/")));
}

#[test]
fn content_type_defaults() {
    assert_eq!(resolve_content_type(Some("text/plain".to_string())), "text/plain");
    assert_eq!(resolve_content_type(Some(String::new())), "application/octet-stream");
    assert_eq!(resolve_content_type(None), "application/octet-stream");
}

#[test]
fn service_keeps_its_repositories() {
    let s = BucketService::new(7u32);
    assert_eq!(*s.repo(), 7);
    let o = ObjectService::new("buckets", "objects");
    assert_eq!(*o.bucket_repo(), "buckets");
    assert_eq!(*o.object_repo(), "objects");
}

#[test]
fn create_bucket_steps() {
    let s = BucketService::new(());
    let (b, dir) = s.create_bucket_dir(Ok(bucket())).unwrap();
    assert_eq!(b.name, "test-bucket");
    assert_eq!(dir, "data/test-bucket");
    assert_eq!(
        s.create_bucket_dir(Err(DomainError::BucketAlreadyExists)).unwrap_err(),
        DomainError::BucketAlreadyExists
    );
    assert_eq!(s.create_bucket_finish(bucket(), Ok(())).unwrap().bucket_id, "b-1");
    assert_eq!(s.create_bucket_finish(bucket(), Err(io_error())).unwrap_err(), DomainError::Internal);
}

#[test]
fn delete_bucket_steps() {
    let s = BucketService::new(());
    assert_eq!(s.delete_bucket_dir("test-bucket", Ok(())).unwrap(), "data/test-bucket");
    assert_eq!(
        s.delete_bucket_dir("x", Err(DomainError::NoSuchBucket("x".to_string()))).unwrap_err(),
        DomainError::NoSuchBucket("x".to_string())
    );
    assert!(s.delete_bucket_finish(Ok(())).is_ok());
    assert_eq!(s.delete_bucket_finish(Err(io_error())).unwrap_err(), DomainError::Internal);
}

#[test]
fn object_record_fields() {
    let o = sample_object();
    assert_eq!(o.object_id, "o-1");
    assert_eq!(o.bucket_id, "b-1");
    assert_eq!(o.key, "hello.txt");
    assert_eq!(o.size, 11);
    assert_eq!(o.content_type, "text/plain");
    assert_eq!(o.etag, "e");
    assert_eq!(o.storage_path, "data/test-bucket/hello.txt");
    assert_eq!(o.created_at, "now");
    assert_eq!(o.updated_at, "now");
}

#[test]
fn head_and_get_steps() {
    let s = ObjectService::new((), ());
    let loc = s.locate_object(Ok(bucket()), "hello.txt".to_string()).unwrap();
    assert_eq!((loc.bucket_id.as_str(), loc.key.as_str()), ("b-1", "hello.txt"));
    assert_eq!(
        s.locate_object(Err(DomainError::NoSuchBucket("nb".to_string())), "k".to_string()).unwrap_err(),
        DomainError::NoSuchBucket("nb".to_string())
    );
    let (o, path) = s.get_object_body_path(Ok(sample_object())).unwrap();
    assert_eq!(path, "data/test-bucket/hello.txt");
    assert_eq!(o.key, "hello.txt");
    assert_eq!(s.get_object_body_path(Err(DomainError::Internal)).unwrap_err(), DomainError::Internal);
    let (o, body) = s.get_object_finish(sample_object(), Ok(b"Hello".to_vec())).unwrap();
    assert_eq!(body, b"Hello".to_vec());
    assert_eq!(o.object_id, "o-1");
    assert_eq!(s.get_object_finish(sample_object(), Err(io_error())).unwrap_err(), DomainError::Internal);
}

fn is_rfc3339_utc(s: &str) -> bool {
    let b = s.as_bytes();
    let d = |i: usize| b[i].is_ascii_digit();
    b.len() >= 25
        && (0..4).all(d)
        && b[4] == b'-' && d(5) && d(6) && b[7] == b'-' && d(8) && d(9)
        && b[10] == b'T' && d(11) && d(12) && b[13] == b':' && d(14) && d(15) && b[16] == b':' && d(17) && d(18)
        && s.ends_with("+00:00")
        && (b.len() == 25 || (b[19] == b'.' && [29, 32, 35].contains(&b.len()) && (20..b.len() - 6).all(d)))
}

fn begun(s: &Objects, key: &str, body: &[u8], content_type: Option<String>) -> (Object, String) {
    match s.put_object_begin(Ok(bucket()), key.to_string(), body.to_vec(), content_type) {
        PutObjectStep::MakeDirs { object, path, body: carried } => {
            assert_eq!(carried, body.to_vec());
            (object, path)
        }
        other => panic!("unexpected step {:?}", other),
    }
}

type Objects = ObjectService<(), ()>;

#[test]
fn put_steps() {
    let s = ObjectService::new((), ());
    let body = b"Hello, S3!\n";
    let (o, path) = begun(&s, "hello.txt", body, Some("text/plain".to_string()));
    assert_eq!(path, "data/test-bucket/hello.txt");
    assert_eq!(o.bucket_id, "b-1");
    assert_eq!(o.key, "hello.txt");
    assert_eq!(o.size, 11);
    assert_eq!(o.content_type, "text/plain");
    assert_eq!(o.etag, s3_etag_hex(body));
    assert_eq!(o.storage_path, "data/test-bucket/hello.txt");
    assert_eq!(o.object_id.len(), 36);
    assert!(is_rfc3339_utc(&o.created_at), "{}", o.created_at);
    assert_eq!(o.created_at, o.updated_at);
    let (o2, _) = begun(&s, "k", b"", None);
    assert_eq!(o2.content_type, "application/octet-stream");
    assert_eq!(o2.size, 0);
    assert_eq!(o2.etag, "d41d8cd98f00b204e9800998ecf8427e");
    assert_ne!(o.object_id, o2.object_id);
    let (o3, _) = begun(&s, "k", b"x", Some(String::new()));
    assert_eq!(o3.content_type, "application/octet-stream");
    match s.put_object_begin(Err(DomainError::NoSuchBucket("b".to_string())), "k".to_string(), b"x".to_vec(), None) {
        PutObjectStep::Finish(Err(e)) => assert_eq!(e, DomainError::NoSuchBucket("b".to_string())),
        other => panic!("unexpected step {:?}", other),
    }
    let r = s.put_object_record(bucket(), "k".to_string(), b"abc", None);
    assert_eq!(r.etag, "900150983cd24fb0d6963f7d28e17f72");
    assert_eq!(r.size, 3);
}

#[test]
fn put_step_sequence() {
    let s = ObjectService::new((), ());
    match s.put_object_dirs_made(sample_object(), b"Hello".to_vec(), Ok(())) {
        PutObjectStep::WriteBody { object, path, body } => {
            assert_eq!(body, b"Hello".to_vec());
            assert_eq!(path, "data/test-bucket/hello.txt");
            assert_eq!(object.key, "hello.txt");
        }
        other => panic!("unexpected step {:?}", other),
    }
    assert!(matches!(
        s.put_object_dirs_made(sample_object(), b"Hello".to_vec(), Err(io_error())),
        PutObjectStep::Finish(Err(DomainError::Internal))
    ));
    match s.put_object_written(sample_object(), Ok(())) {
        PutObjectStep::SaveRecord { object } => assert_eq!(object.object_id, "o-1"),
        other => panic!("unexpected step {:?}", other),
    }
    assert!(matches!(
        s.put_object_written(sample_object(), Err(io_error())),
        PutObjectStep::Finish(Err(DomainError::Internal))
    ));
    match s.put_object_saved(sample_object(), Ok(())) {
        PutObjectStep::Finish(Ok(object)) => assert_eq!(object.etag, "e"),
        other => panic!("unexpected step {:?}", other),
    }
    assert!(matches!(
        s.put_object_saved(sample_object(), Err(DomainError::AccessDenied)),
        PutObjectStep::Finish(Err(DomainError::AccessDenied))
    ));
}

#[test]
fn owner_defaults_to_local_dev() {
    assert_eq!(owner_or_default(None), "local-dev");
    assert_eq!(owner_or_default(Some("AKIA".to_string())), "AKIA");
    assert_eq!(owner_or_default(Some(String::new())), "");
}

#[test]
fn delete_object_steps() {
    let s = ObjectService::new((), ());
    let t = s.delete_object_target(Ok(bucket()), "hello.txt".to_string()).unwrap();
    assert_eq!(t.bucket_id, "b-1");
    assert_eq!(t.key, "hello.txt");
    assert_eq!(t.path, "data/test-bucket/hello.txt");
    assert_eq!(
        s.delete_object_target(Err(DomainError::AccessDenied), "k".to_string()).unwrap_err(),
        DomainError::AccessDenied
    );
    let t = s.delete_object_target(Ok(bucket()), "a/b".to_string()).unwrap();
    assert_eq!(s.delete_object_file(t, Ok(())).unwrap(), "data/test-bucket/a/b");
    let t = s.delete_object_target(Ok(bucket()), "a/b".to_string()).unwrap();
    assert_eq!(s.delete_object_file(t, Err(DomainError::Internal)).unwrap_err(), DomainError::Internal);
    assert!(s.delete_object_finish(Ok(())).is_ok());
    assert_eq!(s.delete_object_finish(Err(io_error())).unwrap_err(), DomainError::Internal);
}

#[test]
fn put_then_delete_use_one_file() {
    let s = ObjectService::new((), ());
    let (o, written_path) = begun(&s, "x/y.bin", b"data", None);
    assert_eq!(written_path, o.storage_path);
    let t = s.delete_object_target(Ok(bucket()), "x/y.bin".to_string()).unwrap();
    assert_eq!(o.storage_path, t.path);
    let (_, read_path) = s.get_object_body_path(Ok(o)).unwrap();
    assert_eq!(read_path, t.path);
}
