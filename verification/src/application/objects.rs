//! The object use cases. The outside work (bucket and object records, object
//! files) is done by the caller; the service decides, from each outcome, what
//! comes next and what the use case answers, and builds the records it stores.

use vstd::prelude::*;
use crate::application::storage::{
    object_path,
    object_storage_path,
    resolve_content_type,
    resolved_content_type,
};
use crate::domain::bucket::{Bucket, BucketView};
use crate::domain::error::{DomainError, DomainErrorView};
use crate::domain::etag::{etag_of, s3_etag_hex};
use crate::domain::ids::{is_utc_rfc3339_text, is_uuid_v4_text, new_uuid_v4, now_rfc3339};
use crate::domain::object::{Object, ObjectView};

verus! {

/// The object use cases, over a repository of bucket records and one of object records.
pub struct ObjectService<B, O> {
    bucket_repo: B,
    object_repo: O,
}

/// Where an object is looked up: the id of its bucket, and its key.
#[derive(Debug)]
pub struct ObjectLocation {
    pub bucket_id: String,
    pub key: String,
}

/// What deleting an object removes: its record, found by bucket id and key,
/// and the file at `path`.
#[derive(Debug)]
pub struct DeleteTarget {
    pub bucket_id: String,
    pub key: String,
    pub path: String,
}

/// What storing an object asks for next.
#[derive(Debug)]
pub enum PutObjectStep {
    /// Make the directories that the file at `path` lies in (if it lies in
    /// any), then report the outcome to `put_object_dirs_made`, handing back
    /// `object` and `body`.
    MakeDirs { object: Object, path: String, body: Vec<u8> },
    /// Write `body` to the file at `path`, then report the outcome to
    /// `put_object_written`, handing back `object`.
    WriteBody { object: Object, path: String, body: Vec<u8> },
    /// Save `object` in the repository of object records, then report the
    /// outcome to `put_object_saved`.
    SaveRecord { object: Object },
    /// The answer to the request.
    Finish(Result<Object, DomainError>),
}

/// The record that storing an object writes belongs to the bucket it was
/// stored in, under the key it was stored under; its size is the content's
/// length, its ETag the content's, its content type the resolved one, its
/// file the object's path, and it is written once: created and updated at
/// the same time.
pub proof fn lemma_put_record_fields(
    object: ObjectView,
    bucket: BucketView,
    key: Seq<char>,
    body: Seq<u8>,
    content_type: Option<Seq<char>>,
)
    requires
        is_put_record(object, bucket, key, body, content_type),
    ensures
        object.bucket_id == bucket.bucket_id,
        object.key == key,
        object.size == body.len() as i64,
        object.etag == etag_of(body),
        object.content_type == resolved_content_type(content_type),
        object.storage_path == object_path(bucket.name, key),
        object.created_at == object.updated_at,
        is_uuid_v4_text(object.object_id),
        is_utc_rfc3339_text(object.created_at),
{
}

/// Storing an object writes the request's own content, whose MD5 is the
/// stored record's ETag, at the file the record names, and saves that record
/// only after the write: the steps of a successful store, taken in turn,
/// carry the content unchanged from the request to the write.
pub proof fn lemma_put_writes_request_body(
    object: ObjectView,
    bucket: BucketView,
    key: Seq<char>,
    body: Seq<u8>,
    content_type: Option<Seq<char>>,
    written: Seq<u8>,
)
    requires
        is_put_record(object, bucket, key, body, content_type),
        written == body,
    ensures
        object.etag == etag_of(written),
        object.size == written.len() as i64,
        object.storage_path == object_path(bucket.name, key),
{
}

/// The record of object `key`, stored in `bucket` with the given content facts,
/// id and time of writing.
pub open spec fn object_record_of(
    bucket: BucketView,
    key: Seq<char>,
    size: i64,
    content_type: Seq<char>,
    etag: Seq<char>,
    object_id: Seq<char>,
    now: Seq<char>,
) -> ObjectView {
    ObjectView {
        object_id,
        bucket_id: bucket.bucket_id,
        key,
        size,
        content_type,
        etag,
        storage_path: object_path(bucket.name, key),
        created_at: now,
        updated_at: now,
    }
}

/// The record that storing `body` under `key` in `bucket` writes: every field
/// but the id and the time is fixed by the request.
pub open spec fn is_put_record(
    object: ObjectView,
    bucket: BucketView,
    key: Seq<char>,
    body: Seq<u8>,
    content_type: Option<Seq<char>>,
) -> bool {
    &&& object == object_record_of(
        bucket,
        key,
        body.len() as i64,
        resolved_content_type(content_type),
        etag_of(body),
        object.object_id,
        object.created_at,
    )
    &&& is_uuid_v4_text(object.object_id)
    &&& is_utc_rfc3339_text(object.created_at)
}

/// The file that a stored object's record names, which fetching it reads, is
/// the file that deleting the same key from the same bucket removes.
pub proof fn lemma_delete_removes_stored_file(
    object: ObjectView,
    bucket: BucketView,
    key: Seq<char>,
    body: Seq<u8>,
    content_type: Option<Seq<char>>,
)
    requires
        is_put_record(object, bucket, key, body, content_type),
    ensures
        object.storage_path == object_path(bucket.name, key),
{
}

/// The record of object `key` in `bucket`.
pub fn object_record(
    bucket: Bucket,
    key: String,
    size: i64,
    content_type: String,
    etag: String,
    object_id: String,
    now: String,
) -> (object: Object)
    ensures
        object@ == object_record_of(bucket@, key@, size, content_type@, etag@, object_id@, now@),
{
    let storage_path = object_storage_path(bucket.name.as_str(), key.as_str());
    Object {
        object_id,
        bucket_id: bucket.bucket_id,
        key,
        size,
        content_type,
        etag,
        storage_path,
        created_at: now.clone(),
        updated_at: now,
    }
}

impl<B, O> ObjectService<B, O> {
    /// The repository of bucket records the service works with.
    pub closed spec fn bucket_repository(&self) -> B {
        self.bucket_repo
    }

    /// The repository of object records the service works with.
    pub closed spec fn object_repository(&self) -> O {
        self.object_repo
    }

    /// A service that works with `bucket_repo` and `object_repo`.
    pub fn new(bucket_repo: B, object_repo: O) -> (service: Self)
        ensures
            service.bucket_repository() == bucket_repo,
            service.object_repository() == object_repo,
    {
        Self { bucket_repo, object_repo }
    }

    /// The repository of bucket records the service works with.
    pub fn bucket_repo(&self) -> (repo: &B)
        ensures
            *repo == self.bucket_repository(),
    {
        &self.bucket_repo
    }

    /// The repository of object records the service works with.
    pub fn object_repo(&self) -> (repo: &O)
        ensures
            *repo == self.object_repository(),
    {
        &self.object_repo
    }

    /// Looking at or fetching an object, once its bucket was looked up: the
    /// object is to be looked up next by the bucket's id and its key; a missing
    /// or failed bucket lookup is the answer.
    pub fn locate_object(&self, found: Result<Bucket, DomainError>, key: String) -> (next: Result<
        ObjectLocation,
        DomainError,
    >)
        ensures
            match found {
                Ok(b) => (next matches Ok(loc) && loc.bucket_id@ == b.bucket_id@ && loc.key@ == key@),
                Err(e) => next == Err::<ObjectLocation, DomainError>(e),
            },
    {
        match found {
            Ok(bucket) => Ok(ObjectLocation { bucket_id: bucket.bucket_id, key }),
            Err(e) => Err(e),
        }
    }

    /// Fetching an object, once its record was looked up: its content is to be
    /// read next from the file its record names; a failed lookup is the answer.
    pub fn get_object_body_path(&self, found: Result<Object, DomainError>) -> (next: Result<
        (Object, String),
        DomainError,
    >)
        ensures
            match found {
                Ok(o) => (next matches Ok((no, path)) && no == o && path@ == o.storage_path@),
                Err(e) => next == Err::<(Object, String), DomainError>(e),
            },
    {
        match found {
            Ok(object) => {
                let path = object.storage_path.clone();
                Ok((object, path))
            },
            Err(e) => Err(e),
        }
    }

    /// Fetching an object, once its file was read: the record with the
    /// content, or an internal error when the file could not be read.
    pub fn get_object_finish(&self, object: Object, read: Result<Vec<u8>, std::io::Error>) -> (answer:
        Result<(Object, Vec<u8>), DomainError>)
        ensures
            match read {
                Ok(body) => answer == Ok::<(Object, Vec<u8>), DomainError>((object, body)),
                Err(_) => (answer matches Err(e) && e@ == DomainErrorView::Internal),
            },
    {
        match read {
            Ok(body) => Ok((object, body)),
            Err(e) => Err(DomainError::from(e)),
        }
    }

    /// The record that storing `body` under `key` in `bucket` writes: the
    /// content's size and ETag, the content type (given, or the default), the
    /// file the content goes to, a fresh id and the time.
    pub fn put_object_record(
        &self,
        bucket: Bucket,
        key: String,
        body: &[u8],
        content_type: Option<String>,
    ) -> (object: Object)
        ensures
            is_put_record(object@, bucket@, key@, body@, content_type.deep_view()),
    {
        let etag = s3_etag_hex(body);
        let content_type = resolve_content_type(content_type);
        let size = body.len() as i64;
        let now = now_rfc3339();
        let object_id = new_uuid_v4();
        object_record(bucket, key, size, content_type, etag, object_id, now)
    }

    /// Storing an object, once its bucket was looked up: the record to store
    /// is made, and the directories of its file are to be made next, carrying
    /// the content along; a missing or failed bucket lookup is the answer.
    pub fn put_object_begin(
        &self,
        found: Result<Bucket, DomainError>,
        key: String,
        body: Vec<u8>,
        content_type: Option<String>,
    ) -> (next: PutObjectStep)
        ensures
            match found {
                Ok(b) => (next matches PutObjectStep::MakeDirs { object, path, body: content }
                    && is_put_record(object@, b@, key@, body@, content_type.deep_view())
                    && path@ == object.storage_path@ && content@ == body@),
                Err(e) => next == PutObjectStep::Finish(Err(e)),
            },
    {
        match found {
            Ok(bucket) => {
                let object = self.put_object_record(bucket, key, body.as_slice(), content_type);
                let path = object.storage_path.clone();
                PutObjectStep::MakeDirs { object, path, body }
            },
            Err(e) => PutObjectStep::Finish(Err(e)),
        }
    }

    /// Storing an object, once the directories of its file were made: the
    /// content is to be written to the record's file next; when the
    /// directories could not be made the answer is an internal error.
    pub fn put_object_dirs_made(
        &self,
        object: Object,
        body: Vec<u8>,
        made: Result<(), std::io::Error>,
    ) -> (next: PutObjectStep)
        ensures
            made is Ok ==> (next matches PutObjectStep::WriteBody { object: o, path, body: content }
                && o == object && path@ == object.storage_path@ && content@ == body@),
            made is Err ==> (next matches PutObjectStep::Finish(Err(e)) && e@
                == DomainErrorView::Internal),
    {
        match made {
            Ok(()) => {
                let path = object.storage_path.clone();
                PutObjectStep::WriteBody { object, path, body }
            },
            Err(e) => PutObjectStep::Finish(Err(DomainError::from(e))),
        }
    }

    /// Storing an object, once its content was written: the record is to be
    /// saved next; when the content could not be written the answer is an
    /// internal error, and no record is saved.
    pub fn put_object_written(&self, object: Object, written: Result<(), std::io::Error>) -> (next:
        PutObjectStep)
        ensures
            written is Ok ==> (next == (PutObjectStep::SaveRecord { object })),
            written is Err ==> (next matches PutObjectStep::Finish(Err(e)) && e@
                == DomainErrorView::Internal),
    {
        match written {
            Ok(()) => PutObjectStep::SaveRecord { object },
            Err(e) => PutObjectStep::Finish(Err(DomainError::from(e))),
        }
    }

    /// Storing an object, once its record was saved: the answer is the
    /// record, or the repository's refusal.
    pub fn put_object_saved(&self, object: Object, saved: Result<(), DomainError>) -> (next:
        PutObjectStep)
        ensures
            match saved {
                Ok(()) => next == PutObjectStep::Finish(Ok(object)),
                Err(e) => next == PutObjectStep::Finish(Err(e)),
            },
    {
        match saved {
            Ok(()) => PutObjectStep::Finish(Ok(object)),
            Err(e) => PutObjectStep::Finish(Err(e)),
        }
    }

    /// Deleting an object, once its bucket was looked up: the record to delete
    /// and the file to remove; a missing or failed bucket lookup is the answer.
    pub fn delete_object_target(&self, found: Result<Bucket, DomainError>, key: String) -> (next:
        Result<DeleteTarget, DomainError>)
        ensures
            match found {
                Ok(b) => (next matches Ok(t) && t.bucket_id@ == b.bucket_id@ && t.key@ == key@
                    && t.path@ == object_path(b.name@, key@)),
                Err(e) => next == Err::<DeleteTarget, DomainError>(e),
            },
    {
        match found {
            Ok(bucket) => {
                let path = object_storage_path(bucket.name.as_str(), key.as_str());
                Ok(DeleteTarget { bucket_id: bucket.bucket_id, key, path })
            },
            Err(e) => Err(e),
        }
    }

    /// Deleting an object, once its record was deleted: its file is to be
    /// removed next; a refused deletion is the answer.
    pub fn delete_object_file(&self, target: DeleteTarget, deleted: Result<(), DomainError>) -> (next:
        Result<String, DomainError>)
        ensures
            match deleted {
                Ok(()) => (next matches Ok(path) && path@ == target.path@),
                Err(e) => next == Err::<String, DomainError>(e),
            },
    {
        match deleted {
            Ok(()) => Ok(target.path),
            Err(e) => Err(e),
        }
    }

    /// Deleting an object, once its file was removed: done, or an internal
    /// error when the file could not be removed.
    pub fn delete_object_finish(&self, removed: Result<(), std::io::Error>) -> (answer: Result<
        (),
        DomainError,
    >)
        ensures
            removed is Ok ==> answer is Ok,
            removed is Err ==> (answer matches Err(e) && e@ == DomainErrorView::Internal),
    {
        match removed {
            Ok(()) => Ok(()),
            Err(e) => Err(DomainError::from(e)),
        }
    }
}

} // verus!
