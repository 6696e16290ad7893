//! Bookkeeping for the launcher's background picture.
//!
//! The picture lives at a fixed address; the expected content hash is encoded
//! in the address itself (the final path segment up to the first underscore).
//! The library decides whether the cached copy is current — by comparing its
//! digest against that hash — and what must happen to refresh it; the caller
//! does the reading, downloading and copying.

use vstd::prelude::*;

verus! {

/// A background picture: where it lives and the content hash its address
/// carries.
#[derive(Debug, Clone, PartialEq, Eq)]
pub struct Background {
    pub uri: String,
    pub hash: String,
}

/// The fixed address of the background picture.
pub open spec fn spec_background_uri() -> Seq<char> {
    "https://wutheringwaves.kurogames.com/website-preface/video/bg/bg-poster.png"@
}

/// The fixed address of the background picture.
pub fn get_uri() -> (r: String)
    ensures
        r@ == spec_background_uri(),
{
    "https://wutheringwaves.kurogames.com/website-preface/video/bg/bg-poster.png".to_owned()
}

/// Where the last segment of a path begins: the index right after the last
/// `/`, or `0` if there is none.
pub open spec fn segment_start(s: Seq<char>) -> int
    decreases s.len(),
{
    if s.len() == 0 {
        0
    } else if s.last() == '/' {
        s.len() as int
    } else {
        segment_start(s.drop_last())
    }
}

/// How many characters stand before the first `c`: its index, or the whole
/// length if there is none.
pub open spec fn prefix_until(s: Seq<char>, c: char) -> int
    decreases s.len(),
{
    if s.len() == 0 {
        0
    } else if s.first() == c {
        0
    } else {
        1 + prefix_until(s.drop_first(), c)
    }
}

/// A scan that stops at the first hit or the end finds `prefix_until`.
proof fn lemma_prefix_until_is_scan(s: Seq<char>, c: char, k: int)
    requires
        0 <= k <= s.len(),
        forall|j: int| 0 <= j < k ==> s[j] != c,
        k < s.len() ==> s[k] == c,
    ensures
        prefix_until(s, c) == k,
    decreases s.len(),
{
    if s.len() > 0 && k > 0 {
        lemma_prefix_until_is_scan(s.drop_first(), c, k - 1);
    }
}

/// The hash a picture address carries: its last path segment, truncated at
/// the first underscore.
pub open spec fn uri_hash(s: Seq<char>) -> Seq<char> {
    let seg = s.subrange(segment_start(s), s.len() as int);
    seg.subrange(0, prefix_until(seg, '_'))
}

/// Extract the hash an address carries.
pub fn extract_uri_hash(uri: &str) -> (r: String)
    ensures
        r@ == uri_hash(uri@),
{
    let n = uri.unicode_len();
    let mut start: usize = 0;
    let mut i: usize = 0;
    while i < n
        invariant
            n == uri@.len(),
            0 <= i <= n,
            start <= i,
            start as int == segment_start(uri@.subrange(0, i as int)),
        decreases n - i,
    {
        let c = uri.get_char(i);
        proof {
            assert(uri@.subrange(0, i as int + 1).drop_last() =~= uri@.subrange(0, i as int));
            assert(uri@.subrange(0, i as int + 1).last() == uri@[i as int]);
        }
        if c == '/' {
            start = i + 1;
        }
        i = i + 1;
    }
    proof {
        assert(uri@.subrange(0, n as int) =~= uri@);
    }
    let mut end: usize = start;
    let mut found = false;
    while !found && end < n
        invariant
            n == uri@.len(),
            start <= end <= n,
            forall|j: int| start <= j < end ==> uri@[j] != '_',
            found ==> end < n && uri@[end as int] == '_',
        decreases n - end, (if found { 0int } else { 1int }),
    {
        if uri.get_char(end) == '_' {
            found = true;
        } else {
            end = end + 1;
        }
    }
    let r = uri.substring_char(start, end);
    proof {
        let seg = uri@.subrange(start as int, n as int);
        assert forall|j: int| 0 <= j < end - start implies seg[j] != '_' by {
            assert(seg[j] == uri@[start + j]);
        }
        lemma_prefix_until_is_scan(seg, '_', end - start);
        assert(uri@.subrange(start as int, end as int) =~= seg.subrange(0, end - start));
    }
    r.to_owned()
}

/// The digest of a byte string, as the outside hash computes it.
pub uninterp spec fn md5_of(data: Seq<u8>) -> Seq<u8>;

/// Relies on `Md5::digest` of the md-5 crate: it returns the 16-byte digest
/// of the input, a function of the input bytes alone.
#[verifier::external_body]
fn md5_digest(data: &[u8]) -> (r: Vec<u8>)
    ensures
        r@ == md5_of(data@),
        r@.len() == 16,
{
    let digest = <md5::Md5 as md5::Digest>::digest(data);
    digest.as_slice().to_vec()
}

/// The lowercase hex character of a value below sixteen.
pub open spec fn hex_digit(n: u8) -> char {
    if n < 10 {
        ((n + 48) as char)
    } else {
        ((n + 87) as char)
    }
}

/// The two lowercase hex characters of one byte.
pub open spec fn hex_pair(b: u8) -> Seq<char> {
    seq![hex_digit(b / 16), hex_digit(b % 16)]
}

/// The lowercase hex form of a byte string, two characters per byte.
pub open spec fn hex_str(data: Seq<u8>) -> Seq<char>
    decreases data.len(),
{
    if data.len() == 0 {
        Seq::empty()
    } else {
        hex_str(data.drop_last()) + hex_pair(data.last())
    }
}

/// The hex form is twice as long and holds each byte's two digits in place.
proof fn lemma_hex_str_index(data: Seq<u8>, i: int)
    requires
        0 <= i < data.len(),
    ensures
        hex_str(data).len() == 2 * data.len(),
        hex_str(data)[2 * i] == hex_digit(data[i] / 16),
        hex_str(data)[2 * i + 1] == hex_digit(data[i] % 16),
    decreases data.len(),
{
    lemma_hex_str_len(data);
    if i == data.len() - 1 {
        lemma_hex_str_len(data.drop_last());
    } else {
        lemma_hex_str_index(data.drop_last(), i);
    }
}

/// The hex form is twice as long as the byte string.
proof fn lemma_hex_str_len(data: Seq<u8>)
    ensures
        hex_str(data).len() == 2 * data.len(),
    decreases data.len(),
{
    if data.len() > 0 {
        lemma_hex_str_len(data.drop_last());
    }
}

/// The lowercase hex character of a value below sixteen.
fn hex_digit_char(n: u8) -> (c: char)
    requires
        n < 16,
    ensures
        c == hex_digit(n),
{
    if n < 10 {
        (n + 48) as char
    } else {
        (n + 87) as char
    }
}

/// Whether `expected` is exactly the lowercase hex form of `digest`.
pub fn matches_hex(digest: &Vec<u8>, expected: &str) -> (r: bool)
    ensures
        r == (expected@ == hex_str(digest@)),
{
    proof {
        lemma_hex_str_len(digest@);
    }
    let n = expected.unicode_len();
    if n % 2 != 0 || n / 2 != digest.len() {
        return false;
    }
    let mut i: usize = 0;
    while i < digest.len()
        invariant
            n == expected@.len(),
            n == 2 * digest@.len(),
            hex_str(digest@).len() == n,
            0 <= i <= digest@.len(),
            forall|j: int| 0 <= j < 2 * i ==> expected@[j] == hex_str(digest@)[j],
        decreases digest@.len() - i,
    {
        let b = digest[i];
        proof {
            lemma_hex_str_index(digest@, i as int);
        }
        let hi = hex_digit_char(b / 16);
        let lo = hex_digit_char(b % 16);
        if expected.get_char(2 * i) != hi || expected.get_char(2 * i + 1) != lo {
            return false;
        }
        i = i + 1;
    }
    proof {
        assert(expected@ =~= hex_str(digest@));
    }
    true
}

/// Whether a cached copy of the picture is current: the lowercase hex form of
/// its digest equals the hash the address carries.
pub fn cached_image_matches(data: &Vec<u8>, expected_hash: &str) -> (r: bool)
    ensures
        r == (expected_hash@ == hex_str(md5_of(data@))),
{
    let digest = md5_digest(data.as_slice());
    matches_hex(&digest, expected_hash)
}

/// Whether the cached picture must be downloaded anew: there is no cached
/// copy, or the cached copy's digest does not match the expected hash.
pub fn needs_download(cached: Option<&Vec<u8>>, expected_hash: &str) -> (r: bool)
    ensures
        r == (match cached {
            None => true,
            Some(data) => expected_hash@ != hex_str(md5_of(data@)),
        }),
{
    match cached {
        None => true,
        Some(data) => !cached_image_matches(data, expected_hash),
    }
}

/// Whether the cached picture must be copied over the processed one after
/// the refresh: always for a picture that needs no conversion, and after a
/// conversion whenever the cached copy was replaced or no processed copy
/// came out of it.
pub fn copy_into_processed(
    uri_is_webp: bool,
    replaced_cached_image: bool,
    processed_exists: bool,
) -> (r: bool)
    ensures
        r == (!uri_is_webp || replaced_cached_image || !processed_exists),
{
    !uri_is_webp || replaced_cached_image || !processed_exists
}

/// Whether `suffix` ends `s`.
pub open spec fn has_suffix(s: Seq<char>, suffix: Seq<char>) -> bool {
    suffix.len() <= s.len() && s.subrange(s.len() - suffix.len(), s.len() as int) == suffix
}

/// Whether `suffix` ends `s`.
pub fn str_has_suffix(s: &str, suffix: &str) -> (r: bool)
    ensures
        r == has_suffix(s@, suffix@),
{
    let n = s.unicode_len();
    let m = suffix.unicode_len();
    if m > n {
        return false;
    }
    let mut i: usize = 0;
    while i < m
        invariant
            m <= n,
            n == s@.len(),
            m == suffix@.len(),
            0 <= i <= m,
            forall|j: int| 0 <= j < i ==> s@[n - m + j] == suffix@[j],
        decreases m - i,
    {
        if s.get_char(n - m + i) != suffix.get_char(i) {
            proof {
                assert(s@.subrange(n as int - m, n as int)[i as int] == s@[n - m + i]);
            }
            return false;
        }
        i = i + 1;
    }
    proof {
        assert(s@.subrange(n as int - m, n as int) =~= suffix@);
    }
    true
}

/// Whether the picture's address names a format that must be converted
/// before the front-end can show it.
pub fn uri_is_webp(uri: &str) -> (r: bool)
    ensures
        r == has_suffix(uri@, ".webp"@),
{
    str_has_suffix(uri, ".webp")
}

/// The background picture and the hash its address carries.
pub fn get_background_info() -> (r: Background)
    ensures
        r.uri@ == spec_background_uri(),
        r.hash@ == uri_hash(spec_background_uri()),
{
    let uri = get_uri();
    let hash = extract_uri_hash(uri.as_str());
    Background { uri, hash }
}

} // verus!
