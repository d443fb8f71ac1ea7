//! Where the store keeps bucket directories and object contents on disk,
//! and which content type an object gets.

use vstd::prelude::*;

verus! {

/// The directory that holds the objects of the bucket named `bucket_name`.
pub open spec fn bucket_dir(bucket_name: Seq<char>) -> Seq<char> {
    "data/"@ + bucket_name
}

/// The file that holds the content of object `key` in the bucket named `bucket_name`.
pub open spec fn object_path(bucket_name: Seq<char>, key: Seq<char>) -> Seq<char> {
    "data/"@ + bucket_name + "/"@ + key
}

/// The content type of an object stored without one.
pub open spec fn default_content_type() -> Seq<char> {
    "application/octet-stream"@
}

/// The content type an object is stored with: the one given, unless it is absent or empty.
pub open spec fn resolved_content_type(content_type: Option<Seq<char>>) -> Seq<char> {
    match content_type {
        Some(c) => if c.len() > 0 { c } else { default_content_type() },
        None => default_content_type(),
    }
}

/// The directory of the bucket named `bucket_name`.
pub fn bucket_dir_path(bucket_name: &str) -> (dir: String)
    ensures
        dir@ == bucket_dir(bucket_name@),
{
    let mut dir = String::from_str("data/");
    dir.append(bucket_name);
    dir
}

/// The file of object `key` in the bucket named `bucket_name`.
pub fn object_storage_path(bucket_name: &str, key: &str) -> (path: String)
    ensures
        path@ == object_path(bucket_name@, key@),
{
    let mut path = String::from_str("data/");
    path.append(bucket_name);
    path.append("/");
    path.append(key);
    path
}

/// The content type to store: `content_type` when it is given and not empty,
/// else `application/octet-stream`.
pub fn resolve_content_type(content_type: Option<String>) -> (resolved: String)
    ensures
        resolved@ == resolved_content_type(content_type.deep_view()),
{
    match content_type {
        Some(c) => {
            if c.as_str().is_empty() {
                String::from_str("application/octet-stream")
            } else {
                c
            }
        },
        None => String::from_str("application/octet-stream"),
    }
}

/// An object's file lies directly inside its bucket's directory: the
/// directory that creating the bucket makes, and deleting it removes.
pub proof fn lemma_object_path_in_bucket_dir(bucket_name: Seq<char>, key: Seq<char>)
    ensures
        object_path(bucket_name, key) == bucket_dir(bucket_name) + "/"@ + key,
        object_path(bucket_name, key).subrange(0, bucket_dir(bucket_name).len() as int)
            == bucket_dir(bucket_name),
{
    let p = object_path(bucket_name, key);
    let d = bucket_dir(bucket_name);
    assert(p.subrange(0, d.len() as int) =~= d);
}

/// A stored object keeps the content type its request gave whenever that one
/// is not empty; only a missing or an empty one becomes
/// `application/octet-stream`.
pub proof fn lemma_content_type_kept(c: Seq<char>)
    ensures
        c.len() > 0 ==> resolved_content_type(Some(c)) == c,
        resolved_content_type(Some(Seq::<char>::empty())) == "application/octet-stream"@,
        resolved_content_type(None) == "application/octet-stream"@,
{
}

/// A bucket's directory is `data/` followed by the whole bucket name, so two
/// different buckets never share a directory.
pub proof fn lemma_bucket_dir_names_whole_bucket(a: Seq<char>, b: Seq<char>)
    ensures
        bucket_dir(a).len() == a.len() + 5,
        bucket_dir(a).take(5) == "data/"@,
        bucket_dir(a).skip(5) == a,
        bucket_dir(a) == bucket_dir(b) ==> a == b,
{
    reveal_strlit("data/");
    assert(bucket_dir(a).take(5) =~= "data/"@);
    assert(bucket_dir(a).skip(5) =~= a);
    assert(bucket_dir(b).skip(5) =~= b);
}

/// An object's file is `data/`, the whole bucket name, `/` and the whole key.
pub proof fn lemma_object_path_parts(b: Seq<char>, k: Seq<char>)
    ensures
        object_path(b, k).len() == b.len() + k.len() + 6,
        object_path(b, k).take(5) == "data/"@,
        object_path(b, k).subrange(5, 5 + b.len() as int) == b,
        object_path(b, k)[5 + b.len() as int] == '/',
        object_path(b, k).skip(6 + b.len() as int) == k,
{
    reveal_strlit("data/");
    reveal_strlit("/");
    let p = object_path(b, k);
    assert(p.take(5) =~= "data/"@);
    assert(p.subrange(5, 5 + b.len() as int) =~= b);
    assert(p.skip(6 + b.len() as int) =~= k);
}

/// Two objects never share a file unless they are the same key in the same
/// bucket, for bucket names without `/`.
pub proof fn lemma_object_path_injective(b1: Seq<char>, k1: Seq<char>, b2: Seq<char>, k2: Seq<char>)
    requires
        !b1.contains('/'),
        !b2.contains('/'),
        object_path(b1, k1) == object_path(b2, k2),
    ensures
        b1 == b2,
        k1 == k2,
{
    lemma_object_path_parts(b1, k1);
    lemma_object_path_parts(b2, k2);
    let p = object_path(b1, k1);
    if b1.len() < b2.len() {
        assert(p.subrange(5, 5 + b2.len() as int)[b1.len() as int] == b2[b1.len() as int]);
        assert(b2[b1.len() as int] == '/');
        assert(false);
    } else if b2.len() < b1.len() {
        assert(p.subrange(5, 5 + b1.len() as int)[b2.len() as int] == b1[b2.len() as int]);
        assert(b1[b2.len() as int] == '/');
        assert(false);
    }
}

} // verus!
