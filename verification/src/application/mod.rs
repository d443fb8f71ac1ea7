pub mod buckets;
pub mod objects;
pub mod owner;
pub mod storage;

pub use buckets::BucketService;
pub use objects::ObjectService;
