//! Compressing a buffer into a single-entry archive and extracting the first
//! entry of an archive, over plain in-memory byte buffers.

use vstd::prelude::*;

use crate::Status;
use crate::zip_io::{
    ReadFirstError, ZIP32_SIZE_LIMIT, archive_len, archive_open, archive_read_first, is_utf8,
    utf8_check, writer_entries, writer_finish, writer_new, writer_start_file, writer_write_all,
    zip_first_data, zip_first_name, zip_num_entries, zip_open_first_ok, zip_parse_ok,
    zip_read_first_ok,
};

verus! {

/// A ZIP header records an entry name's length in 16 bits; longer names
/// cannot be represented, so compression rejects them.
pub const MAX_NAME_LEN: usize = 65535;

/// Whether a byte sequence contains a NUL byte. An extracted name holding one
/// cannot become a null-terminated text buffer, so extraction rejects it.
pub open spec fn has_nul(bytes: Seq<u8>) -> bool {
    exists|i: int| 0 <= i < bytes.len() && bytes[i] == 0
}

/// What extracting the first entry of given archive bytes yields.
pub enum ExtractModel {
    /// The bytes do not parse as an archive, or their first entry cannot be
    /// opened (unsupported or encrypted).
    Malformed,
    /// A well-formed archive with no entries: a valid, non-error outcome.
    EmptyArchive,
    /// The first entry's stream cannot be decompressed, or its name holds a
    /// NUL byte and so cannot be handed out as null-terminated text.
    IoError,
    /// The first entry, as its name's bytes and its decompressed contents.
    Entry { name: Seq<u8>, data: Seq<u8> },
}

/// The outcome of extraction as a function of the archive bytes.
pub open spec fn extract_model(bytes: Seq<u8>) -> ExtractModel {
    if !zip_parse_ok(bytes) {
        ExtractModel::Malformed
    } else if zip_num_entries(bytes) == 0 {
        ExtractModel::EmptyArchive
    } else if !zip_open_first_ok(bytes) {
        ExtractModel::Malformed
    } else if !zip_read_first_ok(bytes) || has_nul(zip_first_name(bytes)) {
        ExtractModel::IoError
    } else {
        ExtractModel::Entry { name: zip_first_name(bytes), data: zip_first_data(bytes) }
    }
}

/// Whether `bytes` is a well-formed archive holding exactly one entry, named
/// `name` with contents `data`.
pub open spec fn compressed_to(name: Seq<u8>, data: Seq<u8>, bytes: Seq<u8>) -> bool {
    &&& zip_parse_ok(bytes)
    &&& zip_num_entries(bytes) == 1
    &&& zip_open_first_ok(bytes)
    &&& zip_read_first_ok(bytes)
    &&& zip_first_name(bytes) == name
    &&& zip_first_data(bytes) == data
}

/// A successfully extracted first entry, or the empty-archive outcome.
#[derive(Debug)]
pub enum Extracted {
    /// The archive holds no entries.
    EmptyArchive,
    /// The first entry's decompressed contents and its name's bytes.
    Entry { data: Vec<u8>, name: Vec<u8> },
}

/// Whether the bytes contain a NUL byte.
fn contains_nul(bytes: &Vec<u8>) -> (r: bool)
    ensures
        r == has_nul(bytes@),
{
    let mut i: usize = 0;
    while i < bytes.len()
        invariant
            0 <= i <= bytes@.len(),
            forall|k: int| 0 <= k < i ==> bytes@[k] != 0,
        decreases bytes@.len() - i,
    {
        if bytes[i] == 0 {
            return true;
        }
        i += 1;
    }
    false
}

/// Builds a single-entry, deflate-compressed archive holding `data` under the
/// entry name `name`, entirely in memory.
///
/// The name must be valid UTF-8, else `NullArgument` comes back with nothing
/// built; a name too long for a ZIP header yields `ArchiveFailure`. On a
/// valid name with contents small enough for ZIP's 32-bit size fields the
/// call succeeds, and the returned bytes are a well-formed archive whose one
/// entry is exactly `(name, data)`.
pub fn zip_compress(data: &[u8], name: &[u8]) -> (r: Result<Vec<u8>, Status>)
    ensures
        r matches Ok(bytes) ==> compressed_to(name@, data@, bytes@),
        is_utf8(name@) && name@.len() <= MAX_NAME_LEN && data@.len() < ZIP32_SIZE_LIMIT ==> r
            is Ok,
        (r matches Err(Status::NullArgument)) <==> !is_utf8(name@),
        is_utf8(name@) && name@.len() > MAX_NAME_LEN ==> r matches Err(Status::ArchiveFailure),
        r matches Err(s) ==> (s == Status::NullArgument || s == Status::IoFailure || s
            == Status::ArchiveFailure),
{
    if !utf8_check(name) {
        return Err(Status::NullArgument);
    }
    if name.len() > MAX_NAME_LEN {
        return Err(Status::ArchiveFailure);
    }
    let mut writer = writer_new();
    if writer_start_file(&mut writer, name).is_err() {
        return Err(Status::ArchiveFailure);
    }
    if writer_write_all(&mut writer, data).is_err() {
        return Err(Status::IoFailure);
    }
    assert(Seq::<u8>::empty() + data@ =~= data@);
    match writer_finish(&mut writer) {
        Ok(bytes) => Ok(bytes),
        Err(_) => Err(Status::ArchiveFailure),
    }
}

/// Extracts the first entry of the archive held in `archive`.
///
/// Bytes that do not parse as an archive, or whose first entry cannot be
/// opened, yield `ArchiveFailure`; a zero-entry archive is the valid
/// `EmptyArchive` outcome; a first entry whose stream cannot be decompressed,
/// or whose name holds a NUL byte, yields `IoFailure`. Otherwise the entry's
/// decompressed contents and name come back exactly as stored.
pub fn zip_decompress_first(archive: &[u8]) -> (r: Result<Extracted, Status>)
    ensures
        (match r {
            Ok(Extracted::EmptyArchive) => extract_model(archive@) is EmptyArchive,
            Ok(Extracted::Entry { data, name }) => extract_model(archive@)
                == (ExtractModel::Entry { name: name@, data: data@ }),
            Err(Status::ArchiveFailure) => extract_model(archive@) is Malformed,
            Err(Status::IoFailure) => extract_model(archive@) is IoError,
            Err(_) => false,
        }),
{
    let mut parsed = match archive_open(archive) {
        Ok(a) => a,
        Err(_) => return Err(Status::ArchiveFailure),
    };
    let count = archive_len(&parsed);
    if count == 0 {
        return Ok(Extracted::EmptyArchive);
    }
    match archive_read_first(&mut parsed) {
        Err(ReadFirstError::Archive) => Err(Status::ArchiveFailure),
        Err(ReadFirstError::Io) => Err(Status::IoFailure),
        Ok((data, name)) => {
            if contains_nul(&name) {
                Err(Status::IoFailure)
            } else {
                Ok(Extracted::Entry { data, name })
            }
        },
    }
}

} // verus!
