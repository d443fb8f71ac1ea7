//! The XML documents that answer the bucket requests.

use vstd::prelude::*;
use crate::domain::bucket::Bucket;

verus! {

/// The `<Bucket>` line of a bucket listing.
pub open spec fn bucket_entry(b: Bucket) -> Seq<char> {
    "    <Bucket><Name>"@ + b.name@ + "</Name><CreationDate>"@ + b.created_at@
        + "</CreationDate></Bucket>"@
}

/// The `<Bucket>` lines of `buckets`, in order, one per line.
pub open spec fn bucket_entries(buckets: Seq<Bucket>) -> Seq<char>
    decreases buckets.len(),
{
    if buckets.len() == 0 {
        Seq::empty()
    } else if buckets.len() == 1 {
        bucket_entry(buckets[0])
    } else {
        bucket_entries(buckets.drop_last()) + "\n"@ + bucket_entry(buckets.last())
    }
}

/// The `ListAllMyBucketsResult` document for `owner` and `buckets`.
pub open spec fn list_all_my_buckets(owner: Seq<char>, buckets: Seq<Bucket>) -> Seq<char> {
    "<?xml version=\"1.0\" encoding=\"UTF-8\"?>\n<ListAllMyBucketsResult>\n  <Owner>\n    <ID>"@
        + owner + "</ID>\n    <DisplayName>"@ + owner + "</DisplayName>\n  </Owner>\n  <Buckets>\n"@
        + bucket_entries(buckets) + "\n  </Buckets>\n</ListAllMyBucketsResult>"@
}

/// The `CreateBucketResult` document for a bucket named `name`.
pub open spec fn create_bucket_result(name: Seq<char>) -> Seq<char> {
    "<?xml version=\"1.0\" encoding=\"UTF-8\"?>\n<CreateBucketResult>\n  <BucketArn>arn:aws:s3:::"@
        + name + "</BucketArn>\n</CreateBucketResult>"@
}

fn append_bucket_entry(xml: &mut String, b: &Bucket)
    ensures
        final(xml)@ == old(xml)@ + bucket_entry(*b),
{
    xml.append("    <Bucket><Name>");
    xml.append(b.name.as_str());
    xml.append("</Name><CreationDate>");
    xml.append(b.created_at.as_str());
    xml.append("</CreationDate></Bucket>");
}

/// The answer to a bucket listing: the owner, then each bucket's name and creation date.
pub fn list_all_my_buckets_xml(owner_access_key: &str, buckets: &Vec<Bucket>) -> (xml: String)
    ensures
        xml@ == list_all_my_buckets(owner_access_key@, buckets@),
{
    let mut entries = String::new();
    let n = buckets.len();
    let mut i: usize = 0;
    while i < n
        invariant
            n == buckets@.len(),
            i <= n,
            entries@ == bucket_entries(buckets@.take(i as int)),
        decreases n - i,
    {
        if i != 0 {
            entries.append("\n");
        }
        append_bucket_entry(&mut entries, &buckets[i]);
        assert(buckets@.take(i + 1).drop_last() =~= buckets@.take(i as int));
        i = i + 1;
    }
    assert(buckets@.take(n as int) =~= buckets@);
    let mut xml = String::from_str(
        "<?xml version=\"1.0\" encoding=\"UTF-8\"?>\n<ListAllMyBucketsResult>\n  <Owner>\n    <ID>",
    );
    xml.append(owner_access_key);
    xml.append("</ID>\n    <DisplayName>");
    xml.append(owner_access_key);
    xml.append("</DisplayName>\n  </Owner>\n  <Buckets>\n");
    xml.append(entries.as_str());
    xml.append("\n  </Buckets>\n</ListAllMyBucketsResult>");
    xml
}

/// The answer to a bucket creation: the bucket's ARN.
pub fn create_bucket_result_xml(bucket: &Bucket) -> (xml: String)
    ensures
        xml@ == create_bucket_result(bucket.name@),
{
    let mut xml = String::from_str(
        "<?xml version=\"1.0\" encoding=\"UTF-8\"?>\n<CreateBucketResult>\n  <BucketArn>arn:aws:s3:::",
    );
    xml.append(bucket.name.as_str());
    xml.append("</BucketArn>\n</CreateBucketResult>");
    xml
}

/// The bucket listing names the owner whole, as its `ID` and as its
/// `DisplayName`, then holds the buckets' lines between `<Buckets>` and
/// `</Buckets>`.
pub proof fn lemma_list_all_my_buckets_parts(owner: Seq<char>, buckets: Seq<Bucket>)
    ensures
        ({
            let x = list_all_my_buckets(owner, buckets);
            let o = owner.len() as int;
            let e = bucket_entries(buckets).len() as int;
            &&& x.len() == 82 + o + 23 + o + 38 + e + 39
            &&& x.subrange(78, 82) == "<ID>"@
            &&& x.subrange(82, 82 + o) == owner
            &&& x.subrange(82 + o, 105 + o) == "</ID>\n    <DisplayName>"@
            &&& x.subrange(105 + o, 105 + 2 * o) == owner
            &&& x.subrange(105 + 2 * o, 143 + 2 * o) == "</DisplayName>\n  </Owner>\n  <Buckets>\n"@
            &&& x.subrange(143 + 2 * o, 143 + 2 * o + e) == bucket_entries(buckets)
            &&& x.skip(143 + 2 * o + e) == "\n  </Buckets>\n</ListAllMyBucketsResult>"@
        }),
{
    reveal_strlit(
        "<?xml version=\"1.0\" encoding=\"UTF-8\"?>\n<ListAllMyBucketsResult>\n  <Owner>\n    <ID>",
    );
    reveal_strlit("<ID>");
    reveal_strlit("</ID>\n    <DisplayName>");
    reveal_strlit("</DisplayName>\n  </Owner>\n  <Buckets>\n");
    reveal_strlit("\n  </Buckets>\n</ListAllMyBucketsResult>");
    let x = list_all_my_buckets(owner, buckets);
    let o = owner.len() as int;
    let e = bucket_entries(buckets).len() as int;
    assert(x.subrange(78, 82) =~= "<ID>"@);
    assert(x.subrange(82, 82 + o) =~= owner);
    assert(x.subrange(82 + o, 105 + o) =~= "</ID>\n    <DisplayName>"@);
    assert(x.subrange(105 + o, 105 + 2 * o) =~= owner);
    assert(x.subrange(105 + 2 * o, 143 + 2 * o) =~= "</DisplayName>\n  </Owner>\n  <Buckets>\n"@);
    assert(x.subrange(143 + 2 * o, 143 + 2 * o + e) =~= bucket_entries(buckets));
    assert(x.skip(143 + 2 * o + e) =~= "\n  </Buckets>\n</ListAllMyBucketsResult>"@);
}

/// A bucket's line names the bucket and its creation date, both whole:
/// `    <Bucket><Name>`, the name, `</Name><CreationDate>`, the date, `</CreationDate></Bucket>`.
pub proof fn lemma_bucket_entry_parts(b: Bucket)
    ensures
        bucket_entry(b).len() == 18 + b.name@.len() + 21 + b.created_at@.len() + 24,
        bucket_entry(b).take(18) == "    <Bucket><Name>"@,
        bucket_entry(b).subrange(18, 18 + b.name@.len() as int) == b.name@,
        bucket_entry(b).subrange(18 + b.name@.len() as int, 39 + b.name@.len() as int)
            == "</Name><CreationDate>"@,
        bucket_entry(b).subrange(39 + b.name@.len() as int, 39 + b.name@.len() + b.created_at@.len() as int)
            == b.created_at@,
        bucket_entry(b).skip(39 + b.name@.len() + b.created_at@.len() as int) == "</CreationDate></Bucket>"@,
{
    reveal_strlit("    <Bucket><Name>");
    reveal_strlit("</Name><CreationDate>");
    reveal_strlit("</CreationDate></Bucket>");
    let e = bucket_entry(b);
    let n = b.name@.len() as int;
    let c = b.created_at@.len() as int;
    assert(e.take(18) =~= "    <Bucket><Name>"@);
    assert(e.subrange(18, 18 + n) =~= b.name@);
    assert(e.subrange(18 + n, 39 + n) =~= "</Name><CreationDate>"@);
    assert(e.subrange(39 + n, 39 + n + c) =~= b.created_at@);
    assert(e.skip(39 + n + c) =~= "</CreationDate></Bucket>"@);
}

/// The listing holds one line per bucket, in order, separated by line breaks:
/// no buckets give no lines, one bucket gives its line, and one more bucket
/// adds a line break and its line after the others.
pub proof fn lemma_bucket_entries_join(buckets: Seq<Bucket>, b: Bucket)
    ensures
        bucket_entries(Seq::<Bucket>::empty()) == Seq::<char>::empty(),
        bucket_entries(seq![b]) == bucket_entry(b),
        buckets.len() > 0 ==> bucket_entries(buckets.push(b)) == bucket_entries(buckets) + "\n"@
            + bucket_entry(b),
{
    assert(buckets.push(b).drop_last() =~= buckets);
}

/// Whether `part` stands in `text` from position `at` on.
pub open spec fn appears_at(text: Seq<char>, part: Seq<char>, at: int) -> bool {
    0 <= at && at + part.len() <= text.len() && text.subrange(at, at + part.len()) == part
}

/// Every bucket's line, and so its whole name, appears in the listing.
pub proof fn lemma_every_bucket_listed(buckets: Seq<Bucket>, i: int)
    requires
        0 <= i < buckets.len(),
    ensures
        exists|at: int| #[trigger] appears_at(bucket_entries(buckets), bucket_entry(buckets[i]), at),
    decreases buckets.len(),
{
    let all = bucket_entries(buckets);
    let e = bucket_entry(buckets[i]);
    if i == buckets.len() - 1 {
        let at = all.len() - e.len();
        if buckets.len() == 1 {
            assert(all.subrange(at, at + e.len()) =~= e);
        } else {
            assert(all.subrange(at, at + e.len()) =~= e);
        }
        assert(appears_at(all, e, at));
    } else {
        let rest = buckets.drop_last();
        assert(rest[i] == buckets[i]);
        lemma_every_bucket_listed(rest, i);
        let at = choose|at: int| #[trigger] appears_at(bucket_entries(rest), e, at);
        let prefix = bucket_entries(rest);
        assert(all.subrange(at, at + e.len()) =~= prefix.subrange(at, at + e.len()));
        assert(appears_at(all, e, at));
    }
}

/// The answer to creating a bucket carries the ARN of the whole bucket name:
/// the document's fixed opening ending in `arn:aws:s3:::`, the name, then
/// `</BucketArn>` and the closing; different names give different answers.
pub proof fn lemma_create_bucket_result_names_bucket(n: Seq<char>, m: Seq<char>)
    ensures
        create_bucket_result(n).len() == 86 + n.len() + 34,
        create_bucket_result(n).subrange(73, 86) == "arn:aws:s3:::"@,
        create_bucket_result(n).subrange(86, 86 + n.len() as int) == n,
        create_bucket_result(n).skip(86 + n.len() as int) == "</BucketArn>\n</CreateBucketResult>"@,
        create_bucket_result(n) == create_bucket_result(m) ==> n == m,
{
    reveal_strlit(
        "<?xml version=\"1.0\" encoding=\"UTF-8\"?>\n<CreateBucketResult>\n  <BucketArn>arn:aws:s3:::",
    );
    reveal_strlit("</BucketArn>\n</CreateBucketResult>");
    reveal_strlit("arn:aws:s3:::");
    let r = create_bucket_result(n);
    assert(r.subrange(73, 86) =~= "arn:aws:s3:::"@);
    assert(r.subrange(86, 86 + n.len() as int) =~= n);
    assert(r.skip(86 + n.len() as int) =~= "</BucketArn>\n</CreateBucketResult>"@);
    let q = create_bucket_result(m);
    if r == q {
        assert(q.subrange(86, 86 + m.len() as int) =~= m);
    }
}

} // verus!
