//! Storage URI helpers: prefix tests, backend detection and normalisation.

use vstd::prelude::*;
use vstd::string::*;

verus! {

/// `p` is a prefix of `s`.
pub open spec fn is_prefix_of(p: Seq<char>, s: Seq<char>) -> bool {
    p.len() <= s.len() && s.subrange(0, p.len() as int) =~= p
}

/// Tests whether `s` begins with `prefix`.
pub fn starts_with(s: &str, prefix: &str) -> (r: bool)
    ensures
        r == is_prefix_of(prefix@, s@),
{
    let n = s.unicode_len();
    let m = prefix.unicode_len();
    if m > n {
        return false;
    }
    let mut i: usize = 0;
    while i < m
        invariant
            i <= m <= n,
            n == s@.len(),
            m == prefix@.len(),
            forall|j: int| 0 <= j < i ==> s@[j] == prefix@[j],
        decreases m - i,
    {
        if s.get_char(i) != prefix.get_char(i) {
            assert(s@.subrange(0, m as int)[i as int] != prefix@[i as int]);
            return false;
        }
        i += 1;
    }
    true
}

/// Tests whether two strings hold the same characters.
pub fn str_eq(a: &str, b: &str) -> (r: bool)
    ensures
        r == (a@ == b@),
{
    let n = a.unicode_len();
    let m = b.unicode_len();
    if n != m {
        return false;
    }
    let mut i: usize = 0;
    while i < n
        invariant
            i <= n,
            n == a@.len(),
            m == b@.len(),
            n == m,
            forall|j: int| 0 <= j < i ==> a@[j] == b@[j],
        decreases n - i,
    {
        if a.get_char(i) != b.get_char(i) {
            return false;
        }
        i += 1;
    }
    assert(a@ =~= b@);
    true
}

/// Storage backend named by a data folder URI.
#[derive(Debug, Clone, Copy, PartialEq, Eq, Structural)]
pub enum StorageBackend {
    S3,
    Azure,
    File,
    DirectIO,
}

/// The backend that a URI selects: `s3://`, `az://`, `direct://` or
/// `directio://`; anything else is a local file path.
pub open spec fn backend_of(uri: Seq<char>) -> StorageBackend {
    if is_prefix_of("s3://"@, uri) {
        StorageBackend::S3
    } else if is_prefix_of("az://"@, uri) {
        StorageBackend::Azure
    } else if is_prefix_of("direct://"@, uri) || is_prefix_of("directio://"@, uri) {
        StorageBackend::DirectIO
    } else {
        StorageBackend::File
    }
}

/// Detects the storage backend from the scheme of a data folder URI.
pub fn storage_backend(uri: &str) -> (r: StorageBackend)
    ensures
        r == backend_of(uri@),
{
    if starts_with(uri, "s3://") {
        StorageBackend::S3
    } else if starts_with(uri, "az://") {
        StorageBackend::Azure
    } else if starts_with(uri, "direct://") || starts_with(uri, "directio://") {
        StorageBackend::DirectIO
    } else {
        StorageBackend::File
    }
}

/// Short lower-case name of the backend that a URI selects, as reports print it.
pub open spec fn backend_name_of(uri: Seq<char>) -> Seq<char> {
    match backend_of(uri) {
        StorageBackend::S3 => "s3"@,
        StorageBackend::Azure => "azure"@,
        StorageBackend::DirectIO => "directio"@,
        StorageBackend::File => "file"@,
    }
}

/// Names the backend of a URI: "s3", "azure", "directio" or "file".
pub fn backend_from_uri(uri: &str) -> (r: String)
    ensures
        r@ == backend_name_of(uri@),
{
    match storage_backend(uri) {
        StorageBackend::S3 => String::from_str("s3"),
        StorageBackend::Azure => String::from_str("azure"),
        StorageBackend::DirectIO => String::from_str("directio"),
        StorageBackend::File => String::from_str("file"),
    }
}

/// Name of the backend that a dataset reader reports for a URI; a URI
/// without a known scheme is "Unknown".
pub open spec fn reader_backend_name_of(uri: Seq<char>) -> Seq<char> {
    if is_prefix_of("file://"@, uri) {
        "File"@
    } else if is_prefix_of("s3://"@, uri) {
        "S3"@
    } else if is_prefix_of("az://"@, uri) {
        "Azure"@
    } else if is_prefix_of("direct://"@, uri) {
        "DirectIO"@
    } else {
        "Unknown"@
    }
}

/// Names the backend of a URI as a dataset reader reports it.
pub fn detect_backend_from_uri(uri: &str) -> (r: String)
    ensures
        r@ == reader_backend_name_of(uri@),
{
    if starts_with(uri, "file://") {
        String::from_str("File")
    } else if starts_with(uri, "s3://") {
        String::from_str("S3")
    } else if starts_with(uri, "az://") {
        String::from_str("Azure")
    } else if starts_with(uri, "direct://") {
        String::from_str("DirectIO")
    } else {
        String::from_str("Unknown")
    }
}

/// Normalises a data folder URI for the I/O layer. Both `file://path` and
/// `file:///absolute/path` are already in the accepted form, as is every
/// other scheme, so the URI is returned as it is.
pub fn normalize_uri(uri: &str) -> (r: String)
    ensures
        r@ == uri@,
{
    String::from_str(uri)
}

/// `p` occurs in `s` at position `i`.
pub open spec fn occurs_at(s: Seq<char>, p: Seq<char>, i: int) -> bool {
    0 <= i && i + p.len() <= s.len() && s.subrange(i, i + p.len()) =~= p
}

/// Finds the first position at which `pat` occurs in `s`.
pub fn find_first(s: &str, pat: &str) -> (r: Option<usize>)
    ensures
        r is Some ==> occurs_at(s@, pat@, r->Some_0 as int) && forall|j: int| 0 <= j < r->Some_0 ==> !occurs_at(s@, pat@, j),
        r is None ==> forall|j: int| !occurs_at(s@, pat@, j),
{
    let n = s.unicode_len();
    let m = pat.unicode_len();
    if m > n {
        return None;
    }
    let mut i: usize = 0;
    while i <= n - m
        invariant
            n == s@.len(),
            m == pat@.len(),
            m <= n,
            i <= n - m + 1,
            forall|j: int| 0 <= j < i ==> !occurs_at(s@, pat@, j),
        decreases n - m + 1 - i,
    {
        let mut k: usize = 0;
        let mut matched = true;
        while k < m
            invariant
                n == s@.len(),
                m == pat@.len(),
                i + m <= n,
                k <= m,
                matched ==> forall|t: int| 0 <= t < k ==> s@[i + t] == pat@[t],
                !matched ==> !occurs_at(s@, pat@, i as int),
            decreases m - k,
        {
            if matched && s.get_char(i + k) != pat.get_char(k) {
                matched = false;
                assert(s@.subrange(i as int, i + m)[k as int] != pat@[k as int]);
            }
            k = k + 1;
        }
        if matched {
            assert(s@.subrange(i as int, i + m) =~= pat@);
            return Some(i);
        }
        i = i + 1;
    }
    None
}

} // verus!
