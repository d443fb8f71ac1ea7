use vstd::prelude::*;

verus! {

/// Every way a request to the store can be refused.
#[derive(Debug, Clone, PartialEq, Eq)]
pub enum DomainError {
    BucketAlreadyExists,
    BucketNotEmpty,
    Internal,
    NoSuchBucket(String),
    NoSuchKey(String),
    InvalidBucketName,
    AccessDenied,
    SignatureDoesNotMatch,
}

/// The mathematical value of a `DomainError`: its variant, and the name it carries.
pub enum DomainErrorView {
    BucketAlreadyExists,
    BucketNotEmpty,
    Internal,
    NoSuchBucket(Seq<char>),
    NoSuchKey(Seq<char>),
    InvalidBucketName,
    AccessDenied,
    SignatureDoesNotMatch,
}

impl View for DomainError {
    type V = DomainErrorView;

    open spec fn view(&self) -> DomainErrorView {
        match self {
            DomainError::BucketAlreadyExists => DomainErrorView::BucketAlreadyExists,
            DomainError::BucketNotEmpty => DomainErrorView::BucketNotEmpty,
            DomainError::Internal => DomainErrorView::Internal,
            DomainError::NoSuchBucket(name) => DomainErrorView::NoSuchBucket(name@),
            DomainError::NoSuchKey(key) => DomainErrorView::NoSuchKey(key@),
            DomainError::InvalidBucketName => DomainErrorView::InvalidBucketName,
            DomainError::AccessDenied => DomainErrorView::AccessDenied,
            DomainError::SignatureDoesNotMatch => DomainErrorView::SignatureDoesNotMatch,
        }
    }
}

/// The human-readable text of an error.
pub open spec fn error_text(e: DomainErrorView) -> Seq<char> {
    match e {
        DomainErrorView::BucketAlreadyExists => "bucket already exists"@,
        DomainErrorView::BucketNotEmpty => "bucket not empty"@,
        DomainErrorView::Internal => "internal error"@,
        DomainErrorView::NoSuchBucket(name) => "no such bucket: "@ + name,
        DomainErrorView::NoSuchKey(key) => "no such key: "@ + key,
        DomainErrorView::InvalidBucketName => "invalid bucket name"@,
        DomainErrorView::AccessDenied => "access denied"@,
        DomainErrorView::SignatureDoesNotMatch => "signature does not match"@,
    }
}

/// The text of a missing bucket or key names it whole, after its fixed opening.
pub proof fn lemma_error_text_names_missing(n: Seq<char>)
    ensures
        error_text(DomainErrorView::NoSuchBucket(n)).take(16) == "no such bucket: "@,
        error_text(DomainErrorView::NoSuchBucket(n)).skip(16) == n,
        error_text(DomainErrorView::NoSuchKey(n)).take(13) == "no such key: "@,
        error_text(DomainErrorView::NoSuchKey(n)).skip(13) == n,
{
    reveal_strlit("no such bucket: ");
    reveal_strlit("no such key: ");
    assert(error_text(DomainErrorView::NoSuchBucket(n)).take(16) =~= "no such bucket: "@);
    assert(error_text(DomainErrorView::NoSuchBucket(n)).skip(16) =~= n);
    assert(error_text(DomainErrorView::NoSuchKey(n)).take(13) =~= "no such key: "@);
    assert(error_text(DomainErrorView::NoSuchKey(n)).skip(13) =~= n);
}

/// Whether an error says that the bucket or the key is missing.
pub open spec fn is_not_found(e: DomainErrorView) -> bool {
    e is NoSuchBucket || e is NoSuchKey
}

impl DomainError {
    /// Whether the error says that the bucket or the key is missing.
    pub fn is_not_found(&self) -> (not_found: bool)
        ensures
            not_found == is_not_found(self@),
    {
        match self {
            DomainError::NoSuchBucket(_) => true,
            DomainError::NoSuchKey(_) => true,
            _ => false,
        }
    }

    /// The text under which the error is shown to people and in logs.
    pub fn message(&self) -> (text: String)
        ensures
            text@ == error_text(self@),
    {
        match self {
            DomainError::BucketAlreadyExists => String::from_str("bucket already exists"),
            DomainError::BucketNotEmpty => String::from_str("bucket not empty"),
            DomainError::Internal => String::from_str("internal error"),
            DomainError::NoSuchBucket(name) => {
                let mut text = String::from_str("no such bucket: ");
                text.append(name.as_str());
                text
            },
            DomainError::NoSuchKey(key) => {
                let mut text = String::from_str("no such key: ");
                text.append(key.as_str());
                text
            },
            DomainError::InvalidBucketName => String::from_str("invalid bucket name"),
            DomainError::AccessDenied => String::from_str("access denied"),
            DomainError::SignatureDoesNotMatch => String::from_str("signature does not match"),
        }
    }
}

/// `std::io::Error`, carried through the library as an opaque value.
#[verifier::external_type_specification]
#[verifier::external_body]
pub struct ExIoError(std::io::Error);

/// A failed file operation is answered as an internal error.
impl From<std::io::Error> for DomainError {
    fn from(_e: std::io::Error) -> (r: DomainError) {
        DomainError::Internal
    }
}

impl vstd::std_specs::convert::FromSpecImpl<std::io::Error> for DomainError {
    open spec fn obeys_from_spec() -> bool {
        true
    }

    open spec fn from_spec(v: std::io::Error) -> DomainError {
        DomainError::Internal
    }
}

} // verus!
