pub mod buckets;
pub mod objects;
