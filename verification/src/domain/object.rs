use vstd::prelude::*;

verus! {

/// The record the store keeps of an object: where its content lies and what it is.
#[derive(Debug, Clone)]
pub struct Object {
    pub object_id: String,
    pub bucket_id: String,
    pub key: String,
    pub size: i64,
    pub content_type: String,
    pub etag: String,
    pub storage_path: String,
    pub created_at: String,
    pub updated_at: String,
}

/// The mathematical value of an `Object`: the text of each field, and its size.
pub struct ObjectView {
    pub object_id: Seq<char>,
    pub bucket_id: Seq<char>,
    pub key: Seq<char>,
    pub size: i64,
    pub content_type: Seq<char>,
    pub etag: Seq<char>,
    pub storage_path: Seq<char>,
    pub created_at: Seq<char>,
    pub updated_at: Seq<char>,
}

impl View for Object {
    type V = ObjectView;

    open spec fn view(&self) -> ObjectView {
        ObjectView {
            object_id: self.object_id@,
            bucket_id: self.bucket_id@,
            key: self.key@,
            size: self.size,
            content_type: self.content_type@,
            etag: self.etag@,
            storage_path: self.storage_path@,
            created_at: self.created_at@,
            updated_at: self.updated_at@,
        }
    }
}

} // verus!
