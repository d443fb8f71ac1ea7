//! What the record store's failures mean to the store, and the record that
//! creating a bucket writes.

use vstd::prelude::*;
use crate::domain::bucket::Bucket;
use crate::domain::error::{DomainError, DomainErrorView};
use crate::domain::ids::{is_utc_rfc3339_text, is_uuid_v4_text, new_uuid_v4, now_rfc3339};

verus! {

/// How a query against the record store failed, as far as the store cares.
#[derive(Debug)]
pub enum StoreFailure {
    /// The query asked for exactly one row and there was none.
    RowNotFound,
    /// An insertion broke a uniqueness constraint.
    UniqueViolation,
    /// Any other failure.
    Other,
}

/// The error that answers a failed query whose failure the store does not tell apart.
pub fn query_failure(_failure: StoreFailure) -> (e: DomainError)
    ensures
        e@ == DomainErrorView::Internal,
{
    DomainError::Internal
}

/// The error that answers a failed lookup of the bucket named `bucket_name`:
/// a missing row means there is no such bucket.
pub fn bucket_lookup_failure(bucket_name: &str, failure: StoreFailure) -> (e: DomainError)
    ensures
        failure is RowNotFound ==> e@ == DomainErrorView::NoSuchBucket(bucket_name@),
        !(failure is RowNotFound) ==> e@ == DomainErrorView::Internal,
{
    match failure {
        StoreFailure::RowNotFound => DomainError::NoSuchBucket(String::from_str(bucket_name)),
        _ => DomainError::Internal,
    }
}

/// The error that answers a failed insertion of a bucket: a broken uniqueness
/// constraint means the bucket exists already.
pub fn bucket_insert_failure(failure: StoreFailure) -> (e: DomainError)
    ensures
        failure is UniqueViolation ==> e@ == DomainErrorView::BucketAlreadyExists,
        !(failure is UniqueViolation) ==> e@ == DomainErrorView::Internal,
{
    match failure {
        StoreFailure::UniqueViolation => DomainError::BucketAlreadyExists,
        _ => DomainError::Internal,
    }
}

/// The record of a bucket named `name`, with the given id and creation time.
pub fn bucket_record(bucket_id: String, name: &str, created_at: String) -> (bucket: Bucket)
    ensures
        bucket.bucket_id@ == bucket_id@,
        bucket.name@ == name@,
        bucket.created_at@ == created_at@,
{
    Bucket { bucket_id, name: String::from_str(name), created_at }
}

/// The record that creating a bucket named `name` inserts: a fresh id and the current time.
pub fn new_bucket_record(name: &str) -> (bucket: Bucket)
    ensures
        bucket.name@ == name@,
        is_uuid_v4_text(bucket.bucket_id@),
        is_utc_rfc3339_text(bucket.created_at@),
{
    let bucket_id = new_uuid_v4();
    let now = now_rfc3339();
    bucket_record(bucket_id, name, now)
}

} // verus!
