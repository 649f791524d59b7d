//! Taking a binary out of a downloaded archive.

use vstd::prelude::*;
use crate::catalog::installed_name;
use crate::errors::{payload_view, FetchError, FetchErrorView};
use crate::platform::Os;
use crate::text::{chars_of, contains, ends_with, find, has_suffix, push_str};

verus! {

/// The number of entries that the `zip` crate finds in the archive
/// `bytes`, or the text of its error where it cannot read the archive.
pub uninterp spec fn zip_entry_count(bytes: Seq<u8>) -> Result<nat, Seq<char>>;

/// The name that the `zip` crate gives for the entry `index` of the
/// archive `bytes` when the entry is opened with the empty password, or the
/// text of the crate's error where it cannot open the entry.  An entry that
/// is marked as unencrypted needs no password; one that is encrypted opens
/// only if the crate takes the empty password for the right one.
pub uninterp spec fn zip_entry_name(bytes: Seq<u8>, index: nat) -> Result<Seq<char>, Seq<char>>;

/// The content that the `zip` crate reads from the entry `index` of the
/// archive `bytes`, opened as for its name, or the text of the crate's
/// error where it cannot open or read the entry.
pub uninterp spec fn zip_entry_data(bytes: Seq<u8>, index: nat) -> Result<Seq<u8>, Seq<char>>;

/// Opens `bytes` with `zip::ZipArchive::new` and asks for `len`.  The
/// contract only names the result.
#[verifier::external_body]
fn entry_count(bytes: &[u8]) -> (count: Result<usize, String>)
    ensures
        match count {
            Ok(n) => zip_entry_count(bytes@) == Ok::<nat, Seq<char>>(n as nat),
            Err(e) => zip_entry_count(bytes@) == Err::<nat, Seq<char>>(e@),
        },
{
    zip::ZipArchive::new(std::io::Cursor::new(bytes)).map(|a| a.len()).map_err(|e| e.to_string())
}

/// Opens `bytes` with `zip::ZipArchive::new`, the entry with
/// `by_index_decrypt` and the empty password, and asks for its `name`.
/// Both errors of `by_index_decrypt`, the archive's and that of a password
/// that is turned down, come back as the error's text.  The contract only
/// names the result.
#[verifier::external_body]
fn entry_name(bytes: &[u8], index: usize) -> (name: Result<String, String>)
    ensures
        match name {
            Ok(n) => zip_entry_name(bytes@, index as nat) == Ok::<Seq<char>, Seq<char>>(n@),
            Err(e) => zip_entry_name(bytes@, index as nat) == Err::<Seq<char>, Seq<char>>(e@),
        },
{
    let mut archive = zip::ZipArchive::new(std::io::Cursor::new(bytes)).map_err(|e| e.to_string())?;
    let opened = archive.by_index_decrypt(index, b"").map_err(|e| e.to_string())?;
    let file = opened.map_err(|e| e.to_string())?;
    Ok(file.name().to_string())
}

/// Opens `bytes` with `zip::ZipArchive::new`, the entry with
/// `by_index_decrypt` and the empty password, and reads it to its end with
/// `std::io::copy`.  Every error on the way comes back as the error's
/// text.  The contract only names the result.
#[verifier::external_body]
fn entry_data(bytes: &[u8], index: usize) -> (data: Result<Vec<u8>, String>)
    ensures
        match data {
            Ok(d) => zip_entry_data(bytes@, index as nat) == Ok::<Seq<u8>, Seq<char>>(d@),
            Err(e) => zip_entry_data(bytes@, index as nat) == Err::<Seq<u8>, Seq<char>>(e@),
        },
{
    let mut archive = zip::ZipArchive::new(std::io::Cursor::new(bytes)).map_err(|e| e.to_string())?;
    let opened = archive.by_index_decrypt(index, b"").map_err(|e| e.to_string())?;
    let mut file = opened.map_err(|e| e.to_string())?;
    let mut buffer = Vec::new();
    std::io::copy(&mut file, &mut buffer).map_err(|e| e.to_string())?;
    Ok(buffer)
}

/// Whether the archive entry named `entry` holds the binary `binary`.  On
/// Windows the entry's name has to end with the binary's file name; on the
/// other systems it only has to contain the binary's name.
pub open spec fn holds_binary(entry: Seq<char>, binary: Seq<char>, os: Os) -> bool {
    if os == Os::Windows {
        ends_with(entry, installed_name(binary, os))
    } else {
        contains(entry, binary)
    }
}

/// Whether the archive entry named `entry` holds the binary `binary`.
pub fn entry_matches(entry: &str, binary: &str, os: Os) -> (yes: bool)
    ensures
        yes == holds_binary(entry@, binary@, os),
{
    let e = chars_of(entry);
    match os {
        Os::Windows => {
            let mut target = chars_of(binary);
            push_str(&mut target, ".exe");
            has_suffix(&e, &target)
        },
        _ => {
            let b = chars_of(binary);
            find(&e, &b).is_some()
        },
    }
}

/// The search through the entries `from`, `from + 1`, ... of an archive
/// with `count` entries.  The entries are looked at in order; the first
/// that holds the binary is read, and an entry that cannot be opened ends
/// the search.
pub open spec fn extraction_from(bytes: Seq<u8>, binary: Seq<char>, os: Os, count: nat, from: nat)
    -> Result<Seq<u8>, FetchErrorView>
    decreases count - from,
{
    if from >= count {
        Err(FetchErrorView::NotFoundInArchive(installed_name(binary, os)))
    } else {
        match zip_entry_name(bytes, from) {
            Err(reason) => Err(FetchErrorView::ArchiveEntry(reason)),
            Ok(name) => if holds_binary(name, binary, os) {
                match zip_entry_data(bytes, from) {
                    Ok(data) => Ok(data),
                    Err(reason) => Err(FetchErrorView::ArchiveEntry(reason)),
                }
            } else {
                extraction_from(bytes, binary, os, count, from + 1)
            },
        }
    }
}

/// The binary `binary` out of the archive `bytes`: the content of the
/// first entry that holds it.
pub open spec fn extraction(bytes: Seq<u8>, binary: Seq<char>, os: Os) -> Result<
    Seq<u8>,
    FetchErrorView,
> {
    match zip_entry_count(bytes) {
        Err(reason) => Err(FetchErrorView::InvalidArchive(reason)),
        Ok(count) => extraction_from(bytes, binary, os, count, 0),
    }
}

/// The binary `binary_name` out of the archive `bytes`.
pub fn extract_from_zip(bytes: &[u8], binary_name: &str, os: Os) -> (result: Result<
    Vec<u8>,
    FetchError,
>)
    ensures
        payload_view(result) == extraction(bytes@, binary_name@, os),
{
    let count = match entry_count(bytes) {
        Ok(n) => n,
        Err(reason) => {
            return Err(FetchError::InvalidArchive(reason));
        },
    };
    let mut i: usize = 0;
    while i < count
        invariant
            i <= count,
            zip_entry_count(bytes@) == Ok::<nat, Seq<char>>(count as nat),
            extraction_from(bytes@, binary_name@, os, count as nat, 0) == extraction_from(
                bytes@,
                binary_name@,
                os,
                count as nat,
                i as nat,
            ),
        decreases count - i,
    {
        match entry_name(bytes, i) {
            Err(reason) => {
                return Err(FetchError::ArchiveEntry(reason));
            },
            Ok(name) => {
                if entry_matches(name.as_str(), binary_name, os) {
                    return match entry_data(bytes, i) {
                        Ok(data) => Ok(data),
                        Err(reason) => Err(FetchError::ArchiveEntry(reason)),
                    };
                }
            },
        }
        i += 1;
    }
    Err(FetchError::NotFoundInArchive(crate::catalog::binary_file_name(binary_name, os)))
}

} // verus!
