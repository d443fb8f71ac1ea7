//! The ETag of a single-part S3 object is the MD5 digest of its content,
//! written as lower-case hexadecimal.

use vstd::prelude::*;

verus! {

/// The MD5 digest of `data`, as the `md5` crate computes it.
pub uninterp spec fn md5_digest(data: Seq<u8>) -> Seq<u8>;

/// Calls `md5::compute`. Its result is the 16-byte MD5 digest of `data`; the
/// contract names that digest `md5_digest(data)` and says nothing more of it.
#[verifier::external_body]
fn md5_compute(data: &[u8]) -> (digest: [u8; 16])
    ensures
        digest@ == md5_digest(data@),
{
    md5::compute(data).0
}

/// The lower-case hexadecimal digit for `n` (`n < 16`).
pub open spec fn hex_char(n: int) -> char {
    if n == 0 { '0' }
    else if n == 1 { '1' }
    else if n == 2 { '2' }
    else if n == 3 { '3' }
    else if n == 4 { '4' }
    else if n == 5 { '5' }
    else if n == 6 { '6' }
    else if n == 7 { '7' }
    else if n == 8 { '8' }
    else if n == 9 { '9' }
    else if n == 10 { 'a' }
    else if n == 11 { 'b' }
    else if n == 12 { 'c' }
    else if n == 13 { 'd' }
    else if n == 14 { 'e' }
    else { 'f' }
}

/// Whether `c` is a lower-case hexadecimal digit.
pub open spec fn is_lower_hex_char(c: char) -> bool {
    ('0' <= c && c <= '9') || ('a' <= c && c <= 'f')
}

/// `bytes` in lower-case hexadecimal, two digits per byte, high digit first.
pub open spec fn hex_lower(bytes: Seq<u8>) -> Seq<char>
    decreases bytes.len(),
{
    if bytes.len() == 0 {
        Seq::empty()
    } else {
        let b = bytes.last();
        hex_lower(bytes.drop_last()).push(hex_char((b / 16) as int)).push(hex_char((b % 16) as int))
    }
}

/// The ETag that S3 gives an object whose content is `content`.
pub open spec fn etag_of(content: Seq<u8>) -> Seq<char> {
    hex_lower(md5_digest(content))
}

fn hex_digit(n: u8) -> (digit: &'static str)
    requires
        n < 16,
    ensures
        digit@ == seq![hex_char(n as int)],
{
    proof {
        reveal_strlit("0");
        reveal_strlit("1");
        reveal_strlit("2");
        reveal_strlit("3");
        reveal_strlit("4");
        reveal_strlit("5");
        reveal_strlit("6");
        reveal_strlit("7");
        reveal_strlit("8");
        reveal_strlit("9");
        reveal_strlit("a");
        reveal_strlit("b");
        reveal_strlit("c");
        reveal_strlit("d");
        reveal_strlit("e");
        reveal_strlit("f");
    }
    match n {
        0 => "0",
        1 => "1",
        2 => "2",
        3 => "3",
        4 => "4",
        5 => "5",
        6 => "6",
        7 => "7",
        8 => "8",
        9 => "9",
        10 => "a",
        11 => "b",
        12 => "c",
        13 => "d",
        14 => "e",
        _ => "f",
    }
}

/// `bytes` written as lower-case hexadecimal.
pub fn hex_lower_string(bytes: &[u8]) -> (text: String)
    ensures
        text@ == hex_lower(bytes@),
{
    let mut text = String::new();
    let n = bytes.len();
    let mut i: usize = 0;
    while i < n
        invariant
            n == bytes@.len(),
            i <= n,
            text@ == hex_lower(bytes@.take(i as int)),
        decreases n - i,
    {
        let b = bytes[i];
        text.append(hex_digit(b / 16));
        text.append(hex_digit(b % 16));
        assert(bytes@.take(i + 1).drop_last() =~= bytes@.take(i as int));
        i = i + 1;
    }
    assert(bytes@.take(n as int) =~= bytes@);
    text
}

/// The S3 ETag of `content`: its MD5 digest in lower-case hexadecimal.
pub fn s3_etag_hex(content: &[u8]) -> (etag: String)
    ensures
        etag@ == etag_of(content@),
        etag@.len() == 32,
        forall|i: int| 0 <= i < etag@.len() ==> is_lower_hex_char(#[trigger] etag@[i]),
{
    let digest = md5_compute(content);
    proof {
        lemma_hex_lower_shape(digest@);
    }
    hex_lower_string(digest.as_slice())
}

/// Every hexadecimal text has two digits per byte, each a lower-case hex digit.
pub proof fn lemma_hex_lower_shape(bytes: Seq<u8>)
    ensures
        hex_lower(bytes).len() == 2 * bytes.len(),
        forall|i: int| 0 <= i < hex_lower(bytes).len() ==> is_lower_hex_char(#[trigger] hex_lower(bytes)[i]),
    decreases bytes.len(),
{
    if bytes.len() > 0 {
        lemma_hex_lower_shape(bytes.drop_last());
    }
}

/// The hexadecimal digits are `0`-`9` for values below ten and `a`-`f` for
/// ten to fifteen, each value with its own digit.
pub proof fn lemma_hex_char_values(n: int)
    requires
        0 <= n < 16,
    ensures
        hex_char(n) as u32 == (if n < 10 { 48 + n } else { 87 + n }),
        is_lower_hex_char(hex_char(n)),
{
}

/// Hexadecimal text gives each byte, in order, its high digit then its low
/// digit: byte `k` stands at positions `2k` and `2k + 1`.
pub proof fn lemma_hex_lower_digits(bytes: Seq<u8>)
    ensures
        hex_lower(bytes).len() == 2 * bytes.len(),
        forall|k: int|
            0 <= k < bytes.len() ==> #[trigger] hex_lower(bytes)[2 * k] == hex_char((bytes[k] / 16) as int)
                && hex_lower(bytes)[2 * k + 1] == hex_char((bytes[k] % 16) as int),
    decreases bytes.len(),
{
    if bytes.len() > 0 {
        let rest = bytes.drop_last();
        lemma_hex_lower_digits(rest);
        assert forall|k: int| 0 <= k < bytes.len() implies #[trigger] hex_lower(bytes)[2 * k]
            == hex_char((bytes[k] / 16) as int) && hex_lower(bytes)[2 * k + 1] == hex_char((bytes[k] % 16) as int) by {
            if k < rest.len() {
                assert(rest[k] == bytes[k]);
                assert(hex_lower(rest)[2 * k] == hex_char((rest[k] / 16) as int));
            }
        }
    }
}

/// An object's ETag is its content's MD5 digest, byte by byte in order, each
/// byte written as its high then its low lower-case hexadecimal digit,
/// whatever the content's length.
pub proof fn lemma_etag_digits(content: Seq<u8>)
    ensures
        etag_of(content).len() == 2 * md5_digest(content).len(),
        forall|k: int|
            0 <= k < md5_digest(content).len() ==> #[trigger] etag_of(content)[2 * k] == hex_char((md5_digest(content)[k] / 16) as int) && etag_of(content)[2 * k + 1] == hex_char((md5_digest(content)[k] % 16) as int),
{
    lemma_hex_lower_digits(md5_digest(content));
}

} // verus!
