pub mod bucket;
pub mod error;
pub mod etag;
pub mod ids;
pub mod object;

pub use bucket::Bucket;
pub use error::DomainError;
pub use etag::s3_etag_hex;
pub use object::Object;
