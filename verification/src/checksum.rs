//! Digests of downloaded files and the manifests that list them.

use vstd::prelude::*;
use sha2::Digest;
use crate::errors::{verdict_view, FetchError, FetchErrorView};
use crate::text::{
    chars_of, find_line_end, find_word_end, find_word_start, lemma_scan_bounds, line_end, lower,
    same_ignoring_case, same_text, slice_of, string_of, to_lower, word_end, word_start,
};

verus! {

/// The SHA-256 digest of `data`, as the `sha2` crate computes it.
pub uninterp spec fn sha256(data: Seq<u8>) -> Seq<u8>;

/// Hashes `data` with `Sha256` of the `sha2` crate (`new`, `update`,
/// `finalize`).  The contract only names the result.
#[verifier::external_body]
fn sha256_digest(data: &[u8]) -> (digest: Vec<u8>)
    ensures
        digest@ == sha256(data@),
{
    let mut hasher = sha2::Sha256::new();
    hasher.update(data);
    hasher.finalize().to_vec()
}

/// The character for a hexadecimal digit, in lower case.
pub open spec fn hex_digit(n: int) -> char {
    if n < 10 {
        (('0' as u8) + n) as char
    } else {
        (('a' as u8) + (n - 10)) as char
    }
}

/// `bytes` in hexadecimal notation: two lower-case digits per byte, the
/// high half first.
pub open spec fn hex_text(bytes: Seq<u8>) -> Seq<char>
    decreases bytes.len(),
{
    if bytes.len() == 0 {
        Seq::<char>::empty()
    } else {
        hex_text(bytes.drop_last()) + seq![
            hex_digit(bytes.last() as int / 16),
            hex_digit(bytes.last() as int % 16),
        ]
    }
}

/// Writes `bytes` in hexadecimal notation with `hex::encode`, which gives
/// two lower-case digits for every byte.
#[verifier::external_body]
fn hex_encode(bytes: &Vec<u8>) -> (out: String)
    ensures
        out@ == hex_text(bytes@),
{
    hex::encode(bytes)
}

/// The digest of `data` as it is written in a manifest.
pub open spec fn digest_text(data: Seq<u8>) -> Seq<char> {
    hex_text(sha256(data))
}

/// The SHA-256 digest of `data` in hexadecimal notation.
pub fn calculate_sha256(data: &[u8]) -> (out: String)
    ensures
        out@ == digest_text(data@),
{
    let digest = sha256_digest(data);
    hex_encode(&digest)
}

/// What a manifest line says: its first word is a digest, its second the
/// name of the file that the digest belongs to.  A line with fewer than two
/// words says nothing.
pub open spec fn manifest_entry(line: Seq<char>) -> Option<(Seq<char>, Seq<char>)> {
    let digest_from = word_start(line, 0);
    let digest_to = word_end(line, digest_from);
    let name_from = word_start(line, digest_to);
    let name_to = word_end(line, name_from);
    if name_from < line.len() {
        Some((line.subrange(digest_from, digest_to), line.subrange(name_from, name_to)))
    } else {
        None
    }
}

/// The digest that the manifest lists for `name`, looking at the lines that
/// begin at or after `from`: that of the first line that names the file.
pub open spec fn manifest_lookup_from(manifest: Seq<char>, name: Seq<char>, from: int) -> Option<
    Seq<char>,
>
    decreases manifest.len() - from,
{
    if from < 0 || from >= manifest.len() {
        None
    } else {
        let end = line_end(manifest, from);
        let next = if from <= end < manifest.len() {
            end + 1
        } else {
            manifest.len() as int
        };
        match manifest_entry(manifest.subrange(from, end)) {
            Some((digest, file)) => if file == name {
                Some(digest)
            } else {
                manifest_lookup_from(manifest, name, next)
            },
            None => manifest_lookup_from(manifest, name, next),
        }
    }
}

/// The digest that the manifest lists for the file `name`.
pub open spec fn manifest_lookup(manifest: Seq<char>, name: Seq<char>) -> Option<Seq<char>> {
    manifest_lookup_from(manifest, name, 0)
}

fn entry_of(line: &Vec<char>) -> (entry: Option<(Vec<char>, Vec<char>)>)
    ensures
        match entry {
            Some(e) => manifest_entry(line@) == Some((e.0@, e.1@)),
            None => manifest_entry(line@) is None,
        },
{
    let digest_from = find_word_start(line, 0);
    let digest_to = find_word_end(line, digest_from);
    let name_from = find_word_start(line, digest_to);
    let name_to = find_word_end(line, name_from);
    if name_from < line.len() {
        Some((slice_of(line, digest_from, digest_to), slice_of(line, name_from, name_to)))
    } else {
        None
    }
}

/// The digest that `manifest` lists for the file `name`.
pub fn find_checksum(manifest: &str, name: &str) -> (digest: Option<String>)
    ensures
        match digest {
            Some(d) => manifest_lookup(manifest@, name@) == Some(d@),
            None => manifest_lookup(manifest@, name@) is None,
        },
{
    let text = chars_of(manifest);
    let wanted = chars_of(name);
    let mut from: usize = 0;
    while from < text.len()
        invariant
            text@ == manifest@,
            wanted@ == name@,
            manifest_lookup(manifest@, name@) == manifest_lookup_from(
                manifest@,
                name@,
                from as int,
            ),
        decreases text.len() - from,
    {
        let end = find_line_end(&text, from);
        let line = slice_of(&text, from, end);
        match entry_of(&line) {
            Some(e) => {
                if same_text(&e.1, &wanted) {
                    return Some(string_of(&e.0));
                }
            },
            None => {},
        }
        proof {
            lemma_scan_bounds(text@, from as int);
        }
        if end == text.len() {
            assert(manifest_lookup_from(manifest@, name@, text.len() as int) is None);
            return None;
        }
        from = end + 1;
    }
    None
}

/// What the check of a digest against the manifest comes to: the manifest
/// has to list a digest for the file `name`, and that digest has to be
/// `actual`.  Capitals make no difference.
pub open spec fn digest_verdict(actual: Seq<char>, manifest: Seq<char>, name: Seq<char>) -> Result<
    (),
    FetchErrorView,
> {
    match manifest_lookup(manifest, name) {
        None => Err(FetchErrorView::ChecksumUnavailable(name)),
        Some(expected) => if same_ignoring_case(expected, actual) {
            Ok(())
        } else {
            Err(FetchErrorView::ChecksumMismatch { expected, actual })
        },
    }
}

/// What the check of `data` against the manifest comes to: that of its
/// digest.
pub open spec fn checksum_verdict(data: Seq<u8>, manifest: Seq<char>, name: Seq<char>) -> Result<
    (),
    FetchErrorView,
> {
    digest_verdict(digest_text(data), manifest, name)
}

/// Checks the digest `actual` of a file against the one that `manifest`
/// lists for the file `name`.
pub fn check_digest(actual: &str, manifest: &str, name: &str) -> (result: Result<(), FetchError>)
    ensures
        verdict_view(result) == digest_verdict(actual@, manifest@, name@),
{
    match find_checksum(manifest, name) {
        None => Err(FetchError::ChecksumUnavailable(name.to_owned())),
        Some(expected) => {
            let a = to_lower(&chars_of(actual));
            let e = to_lower(&chars_of(expected.as_str()));
            if same_text(&e, &a) {
                Ok(())
            } else {
                Err(FetchError::ChecksumMismatch { expected, actual: actual.to_owned() })
            }
        },
    }
}

/// Checks `data` against the digest that `manifest` lists for the file `name`.
pub fn verify_checksum(data: &[u8], manifest: &str, name: &str) -> (result: Result<(), FetchError>)
    ensures
        verdict_view(result) == checksum_verdict(data@, manifest@, name@),
{
    let actual = calculate_sha256(data);
    check_digest(actual.as_str(), manifest, name)
}

/// A download passes the check exactly when the manifest lists a digest
/// for its file and that digest is the download's own, capitals aside;
/// otherwise the check fails with a mismatch, or, where the manifest does
/// not list the file, as unavailable.  Hence, once some data has passed,
/// other data whose digest differs is always turned down with a mismatch.
pub proof fn law_checksum_decides(
    data: Seq<u8>,
    other: Seq<u8>,
    manifest: Seq<char>,
    name: Seq<char>,
)
    ensures
        checksum_verdict(data, manifest, name) is Ok <==> manifest_lookup(manifest, name) is Some
            && same_ignoring_case(manifest_lookup(manifest, name)->0, digest_text(data)),
        manifest_lookup(manifest, name) is Some && checksum_verdict(data, manifest, name) is Err
            ==> checksum_verdict(data, manifest, name)->Err_0 is ChecksumMismatch,
        checksum_verdict(data, manifest, name) is Ok && lower(digest_text(data)) != lower(
            digest_text(other),
        ) ==> checksum_verdict(other, manifest, name) is Err && checksum_verdict(
            other,
            manifest,
            name,
        )->Err_0 is ChecksumMismatch,
{
}

} // verus!
