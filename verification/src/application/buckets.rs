//! The bucket use cases. The outside work (the bucket records and the bucket
//! directories) is done by the caller; the service decides, from each outcome,
//! what comes next and what the use case answers.

use vstd::prelude::*;
use crate::application::storage::{bucket_dir, bucket_dir_path};
use crate::domain::bucket::Bucket;
use crate::domain::error::{DomainError, DomainErrorView};

verus! {

/// The bucket use cases, over a repository of bucket records.
pub struct BucketService<R> {
    repo: R,
}

impl<R> BucketService<R> {
    /// The repository the service works with.
    pub closed spec fn repository(&self) -> R {
        self.repo
    }

    /// A service that works with `repo`.
    pub fn new(repo: R) -> (service: Self)
        ensures
            service.repository() == repo,
    {
        Self { repo }
    }

    /// The repository the service works with.
    pub fn repo(&self) -> (repo: &R)
        ensures
            *repo == self.repository(),
    {
        &self.repo
    }

    /// Creating a bucket, once its record was inserted: on success the bucket's
    /// directory is to be made next; a refused insertion is the answer.
    pub fn create_bucket_dir(&self, inserted: Result<Bucket, DomainError>) -> (next: Result<
        (Bucket, String),
        DomainError,
    >)
        ensures
            match inserted {
                Ok(b) => (next matches Ok((nb, dir)) && nb == b && dir@ == bucket_dir(b.name@)),
                Err(e) => next == Err::<(Bucket, String), DomainError>(e),
            },
    {
        match inserted {
            Ok(bucket) => {
                let dir = bucket_dir_path(bucket.name.as_str());
                Ok((bucket, dir))
            },
            Err(e) => Err(e),
        }
    }

    /// Creating a bucket, once its directory was made: the bucket, or an
    /// internal error when the directory could not be made.
    pub fn create_bucket_finish(&self, bucket: Bucket, made: Result<(), std::io::Error>) -> (answer:
        Result<Bucket, DomainError>)
        ensures
            made is Ok ==> answer == Ok::<Bucket, DomainError>(bucket),
            made is Err ==> (answer matches Err(e) && e@ == DomainErrorView::Internal),
    {
        match made {
            Ok(()) => Ok(bucket),
            Err(e) => Err(DomainError::from(e)),
        }
    }

    /// Deleting a bucket, once its record was deleted: on success the bucket's
    /// directory is to be removed next; a refused deletion is the answer.
    pub fn delete_bucket_dir(&self, bucket_name: &str, deleted: Result<(), DomainError>) -> (next:
        Result<String, DomainError>)
        ensures
            match deleted {
                Ok(()) => (next matches Ok(dir) && dir@ == bucket_dir(bucket_name@)),
                Err(e) => next == Err::<String, DomainError>(e),
            },
    {
        match deleted {
            Ok(()) => Ok(bucket_dir_path(bucket_name)),
            Err(e) => Err(e),
        }
    }

    /// Deleting a bucket, once its directory was removed: done, or an internal
    /// error when the directory could not be removed.
    pub fn delete_bucket_finish(&self, removed: Result<(), std::io::Error>) -> (answer: Result<
        (),
        DomainError,
    >)
        ensures
            removed is Ok ==> answer is Ok,
            removed is Err ==> (answer matches Err(e) && e@ == DomainErrorView::Internal),
    {
        match removed {
            Ok(()) => Ok(()),
            Err(_) => Err(DomainError::Internal),
        }
    }
}

} // verus!
