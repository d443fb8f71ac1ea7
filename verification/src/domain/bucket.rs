use vstd::prelude::*;

verus! {

/// A bucket as the store records it.
#[derive(Debug, Clone)]
pub struct Bucket {
    pub bucket_id: String,
    pub name: String,
    pub created_at: String,
}

/// The mathematical value of a `Bucket`: the text of each field.
pub struct BucketView {
    pub bucket_id: Seq<char>,
    pub name: Seq<char>,
    pub created_at: Seq<char>,
}

impl View for Bucket {
    type V = BucketView;

    open spec fn view(&self) -> BucketView {
        BucketView { bucket_id: self.bucket_id@, name: self.name@, created_at: self.created_at@ }
    }
}

} // verus!
