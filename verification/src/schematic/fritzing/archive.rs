//! ZIP archives held in memory, read with the `zip` crate.

use crate::errors::Error;
use vstd::prelude::*;

verus! {

/// The reader of the `zip` crate. An archive is a collection of entries, each with a
/// name; [`archive_entries`] names what it holds.
#[verifier::external_type_specification]
#[verifier::external_body]
#[verifier::reject_recursive_types(R)]
pub struct ExZipArchive<R>(::zip::ZipArchive<R>);

/// The cursor of the standard library, which lets the reader walk over bytes in memory.
#[verifier::external_type_specification]
#[verifier::external_body]
#[verifier::reject_recursive_types(T)]
pub struct ExCursor<T>(std::io::Cursor<T>);

/// The error of the `zip` crate. Nothing is read from it.
#[verifier::external_type_specification]
#[verifier::external_body]
pub struct ExZipError(::zip::result::ZipError);

/// What an open archive holds: for each name in its directory, the bytes that looking
/// the entry up with an empty password and reading it to its end gives, or nothing
/// where either fails: the entry is packed by a method that is not supported, is
/// damaged, or is encrypted under a password. An entry that is encrypted under the
/// empty password is read like one that is not encrypted.
pub uninterp spec fn archive_entries(archive: ::zip::ZipArchive<std::io::Cursor<Vec<u8>>>) -> Map<
    Seq<char>,
    Option<Seq<u8>>,
>;

/// What `zip::ZipArchive::new` finds in `bytes`: the entries of the archive, or nothing
/// where `bytes` are no ZIP archive that it can open.
pub uninterp spec fn zip_entries(bytes: Seq<u8>) -> Option<Map<Seq<char>, Option<Seq<u8>>>>;

/// Why an entry of an open archive was not read.
#[derive(Clone, Copy, Debug, PartialEq, Eq, Structural)]
pub enum EntryFailure {
    /// The directory of the archive has no entry of that name.
    Missing,
    /// The directory has the entry, and its bytes cannot be read.
    Unreadable,
}

/// Calls `zip::ZipArchive::new` on a cursor over `bytes`. The archive that it opens
/// holds what [`zip_entries`] names for `bytes`; where it opens none, there is no such
/// thing.
#[verifier::external_body]
pub(crate) fn open_archive(bytes: Vec<u8>) -> (opened: Result<
    ::zip::ZipArchive<std::io::Cursor<Vec<u8>>>,
    ::zip::result::ZipError,
>)
    ensures
        match opened {
            Ok(archive) => zip_entries(bytes@) == Some(archive_entries(archive)),
            Err(_) => zip_entries(bytes@) is None,
        },
{
    ::zip::ZipArchive::new(std::io::Cursor::new(bytes))
}

/// Calls `zip::ZipArchive::by_name_decrypt` with an empty password, and
/// `std::io::Read::read_to_end` on the entry that it finds. The lookup fails with
/// `ZipError::FileNotFound` exactly where the directory lacks the name; every other
/// failure, of the lookup or of the reading, means that the entry is there and cannot
/// be read. The archive holds afterwards what it held before.
///
/// The lookup with a password hands the verdict on the password back where the lookup
/// without one stops the program on it; the price is that an entry encrypted under the
/// empty password is read.
#[verifier::external_body]
pub(crate) fn read_entry(
    archive: &mut ::zip::ZipArchive<std::io::Cursor<Vec<u8>>>,
    name: &str,
) -> (entry: Result<Vec<u8>, EntryFailure>)
    ensures
        archive_entries(*final(archive)) == archive_entries(*old(archive)),
        match entry {
            Ok(bytes) => archive_entries(*old(archive)).contains_key(name@) && archive_entries(
                *old(archive),
            )[name@] == Some(bytes@),
            Err(EntryFailure::Missing) => !archive_entries(*old(archive)).contains_key(name@),
            Err(EntryFailure::Unreadable) => archive_entries(*old(archive)).contains_key(name@)
                && archive_entries(*old(archive))[name@] is None,
        },
{
    let mut file = match archive.by_name_decrypt(name, &[]) {
        Ok(Ok(file)) => file,
        Err(::zip::result::ZipError::FileNotFound) => return Err(EntryFailure::Missing),
        _ => return Err(EntryFailure::Unreadable),
    };
    let mut bytes = Vec::new();
    match std::io::Read::read_to_end(&mut file, &mut bytes) {
        Ok(_) => Ok(bytes),
        Err(_) => Err(EntryFailure::Unreadable),
    }
}

/// What looking for the entry `name` comes to, given what the archive holds: a missing
/// entry is not found; an archive that does not open, or an entry that cannot be read,
/// is a failure to decode.
pub open spec fn entry_outcome(entries: Option<Map<Seq<char>, Option<Seq<u8>>>>, name: Seq<char>) -> Result<
    Seq<u8>,
    Error,
> {
    match entries {
        Some(entries) => if !entries.contains_key(name) {
            Err(Error::NotFound)
        } else {
            match entries[name] {
                Some(bytes) => Ok(bytes),
                None => Err(Error::Decode),
            }
        },
        None => Err(Error::Decode),
    }
}

/// What is made of the outcome of reading an entry.
pub fn entry_or_failure(entry: Result<Vec<u8>, EntryFailure>) -> (bytes: Result<Vec<u8>, Error>)
    ensures
        match entry {
            Ok(read) => bytes == Ok::<Vec<u8>, Error>(read),
            Err(EntryFailure::Missing) => bytes == Err::<Vec<u8>, Error>(Error::NotFound),
            Err(EntryFailure::Unreadable) => bytes == Err::<Vec<u8>, Error>(Error::Decode),
        },
{
    match entry {
        Ok(read) => Ok(read),
        Err(EntryFailure::Missing) => Err(Error::NotFound),
        Err(EntryFailure::Unreadable) => Err(Error::Decode),
    }
}

/// Reads the entry `name` out of the ZIP archive `bytes`.
pub fn extract(bytes: Vec<u8>, name: &str) -> (entry: Result<Vec<u8>, Error>)
    ensures
        match entry_outcome(zip_entries(bytes@), name@) {
            Ok(read) => entry is Ok && entry->Ok_0@ == read,
            Err(failure) => entry == Err::<Vec<u8>, Error>(failure),
        },
{
    match open_archive(bytes) {
        Ok(archive) => {
            let mut archive = archive;
            entry_or_failure(read_entry(&mut archive, name))
        },
        Err(_) => Err(Error::Decode),
    }
}

} // verus!
