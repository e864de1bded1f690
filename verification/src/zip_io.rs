//! Trusted boundary to the `zip` crate.
//!
//! Everything the library believes about ZIP encoding and decoding is stated
//! here, on wrappers whose bodies make the actual calls. The uninterpreted
//! spec functions name what those calls compute: parsing and decompression
//! are pure functions of the archive bytes, so their results can be named
//! without writing the ZIP format down.

use vstd::prelude::*;

verus! {

/// Whether `bytes` is valid UTF-8. Named result of `core::str::from_utf8`.
pub uninterp spec fn is_utf8(bytes: Seq<u8>) -> bool;

/// Whether `zip::read::ZipArchive::new` accepts `bytes` as an archive.
pub uninterp spec fn zip_parse_ok(bytes: Seq<u8>) -> bool;

/// The number of entries `zip::read::ZipArchive::len` reports for `bytes`.
pub uninterp spec fn zip_num_entries(bytes: Seq<u8>) -> nat;

/// Whether opening entry 0 of `bytes` for reading succeeds (the result of
/// `zip::read::ZipArchive::by_index_decrypt` with an empty password, which
/// is discarded for unencrypted entries).
pub uninterp spec fn zip_open_first_ok(bytes: Seq<u8>) -> bool;

/// Whether fully decompressing entry 0 of `bytes` succeeds.
pub uninterp spec fn zip_read_first_ok(bytes: Seq<u8>) -> bool;

/// The UTF-8 bytes of the decoded name of entry 0 of `bytes`.
pub uninterp spec fn zip_first_name(bytes: Seq<u8>) -> Seq<u8>;

/// The decompressed contents of entry 0 of `bytes`.
pub uninterp spec fn zip_first_data(bytes: Seq<u8>) -> Seq<u8>;

/// The entries a `MemZipWriter` holds so far, in order, each as the pair of
/// its name's UTF-8 bytes and its (still uncompressed) contents.
pub uninterp spec fn writer_entries(w: MemZipWriter) -> Seq<(Seq<u8>, Seq<u8>)>;

/// Whether a `MemZipWriter` still accepts entries: its stream has not been
/// closed by a finish, and it is not mid-way through an extra-data section.
pub uninterp spec fn writer_open(w: MemZipWriter) -> bool;

/// Whether a `MemZipWriter` has an entry started and is accepting that
/// entry's contents (the last entry of `writer_entries`).
pub uninterp spec fn writer_writing(w: MemZipWriter) -> bool;

/// The bytes a `zip::read::ZipArchive` was opened from.
pub uninterp spec fn archive_source(a: zip::read::ZipArchive<std::io::Cursor<Vec<u8>>>) -> Seq<u8>;

#[verifier::external_type_specification]
#[verifier::external_body]
#[verifier::reject_recursive_types(T)]
pub struct ExCursor<T>(std::io::Cursor<T>);

#[verifier::external_type_specification]
#[verifier::external_body]
#[verifier::reject_recursive_types(R)]
pub struct ExZipArchive<R>(zip::read::ZipArchive<R>);

/// A writer that builds an archive in memory. `zip::write::ZipWriter` bounds
/// its stream by traits Verus does not know, so the writer sits in a field
/// hidden from Verus, and the wrappers below speak of it through
/// `writer_entries`.
#[verifier::external_body]
pub struct MemZipWriter {
    inner: zip::write::ZipWriter<std::io::Cursor<Vec<u8>>>,
}

/// An archive parsed from an in-memory copy of its bytes.
pub type MemZipArchive = zip::read::ZipArchive<std::io::Cursor<Vec<u8>>>;

/// How a read of an archive's first entry can fail.
pub enum ReadFirstError {
    Archive,
    Io,
}

/// Contents at or above this size could overflow ZIP's 32-bit size fields
/// once deflate's worst-case overhead is added, so building an archive is
/// only promised to succeed below it; the margin under the 32-bit limit
/// generously covers that overhead.
pub const ZIP32_SIZE_LIMIT: usize = 0xFFF0_0000;

/// Relies on `zip::write::ZipWriter::new`: a fresh writer holds no entries
/// and accepts them.
#[verifier::external_body]
pub(crate) fn writer_new() -> (w: MemZipWriter)
    ensures
        writer_entries(w) == Seq::<(Seq<u8>, Seq<u8>)>::empty(),
        writer_open(w),
{
    MemZipWriter { inner: zip::write::ZipWriter::new(std::io::Cursor::new(Vec::new())) }
}

/// Relies on `zip::write::ZipWriter::start_file`: on success a new, empty,
/// deflate-compressed entry is begun, named by the `&str` handed in; the name
/// is stored as that string's UTF-8 bytes. A ZIP header records the name's
/// length in 16 bits, so longer names are excluded here. On an open writer
/// with no entries yet the call cannot fail: every step writes headers into
/// the in-memory cursor, which never errors.
#[verifier::external_body]
pub(crate) fn writer_start_file(w: &mut MemZipWriter, name: &[u8]) -> (r: Result<(), ()>)
    requires
        is_utf8(name@),
        name@.len() <= 65535,
        writer_open(*old(w)),
    ensures
        r is Ok ==> writer_entries(*final(w)) == writer_entries(*old(w)).push(
            (name@, Seq::<u8>::empty()),
        ) && writer_open(*final(w)) && writer_writing(*final(w)),
        writer_entries(*old(w)).len() == 0 ==> r is Ok,
{
    let s = match core::str::from_utf8(name) {
        Ok(s) => s,
        Err(_) => return Err(()),
    };
    let opts = zip::write::FileOptions::default().compression_method(
        zip::CompressionMethod::Deflated,
    );
    match w.inner.start_file(s, opts) {
        Ok(()) => Ok(()),
        Err(_) => Err(()),
    }
}

/// Relies on `std::io::Write::write_all` on `zip::write::ZipWriter`: on
/// success the bytes are appended to the entry currently being written. The
/// stream compresses into the in-memory cursor, which never errors, so while
/// an entry is being written the only failure is the writer's own check of
/// the 32-bit uncompressed-size limit; below it, the call succeeds.
#[verifier::external_body]
pub(crate) fn writer_write_all(w: &mut MemZipWriter, data: &[u8]) -> (r: Result<(), ()>)
    requires
        writer_entries(*old(w)).len() >= 1,
        writer_writing(*old(w)),
    ensures
        r is Ok ==> writer_entries(*final(w)) == writer_entries(*old(w)).update(
            writer_entries(*old(w)).len() - 1,
            (writer_entries(*old(w)).last().0, writer_entries(*old(w)).last().1 + data@),
        ) && writer_open(*final(w)) && writer_writing(*final(w)),
        writer_entries(*old(w)).last().1.len() + data@.len() <= 0xFFFF_FFFF ==> r is Ok,
{
    match std::io::Write::write_all(&mut w.inner, data) {
        Ok(()) => Ok(()),
        Err(_) => Err(()),
    }
}

/// Relies on `zip::write::ZipWriter::finish`: on success the central directory
/// has been written and the returned bytes are a well-formed archive that
/// `zip::read::ZipArchive` parses back to exactly the entries written: the
/// same count, and for the first entry the same name bytes and, after
/// decompression, the same contents. Names round-trip because the writer
/// stores each name's UTF-8 bytes and flags non-ASCII names as UTF-8, and the
/// reader decodes flagged names as UTF-8 and unflagged (ASCII) names through
/// cp437, which is the identity on ASCII. On an open writer holding one entry
/// whose contents stay below the 32-bit size fields (with room for deflate's
/// worst-case overhead on the compressed size), finishing cannot fail: the
/// remaining header and directory writes go into the in-memory cursor.
#[verifier::external_body]
pub(crate) fn writer_finish(w: &mut MemZipWriter) -> (r: Result<Vec<u8>, ()>)
    ensures
        writer_open(*old(w)) && writer_entries(*old(w)).len() == 1 && writer_entries(
            *old(w),
        )[0].1.len() < ZIP32_SIZE_LIMIT ==> r is Ok,
        r matches Ok(bytes) ==> ({
            let entries = writer_entries(*old(w));
            &&& zip_parse_ok(bytes@)
            &&& zip_num_entries(bytes@) == entries.len()
            &&& entries.len() >= 1 ==> {
                &&& zip_open_first_ok(bytes@)
                &&& zip_read_first_ok(bytes@)
                &&& zip_first_name(bytes@) == entries[0].0
                &&& zip_first_data(bytes@) == entries[0].1
            }
        }),
{
    match w.inner.finish() {
        Ok(cursor) => Ok(cursor.into_inner()),
        Err(_) => Err(()),
    }
}

/// Relies on `zip::read::ZipArchive::new`: parsing is a pure function of the
/// archive bytes, succeeding exactly when they hold a readable directory.
#[verifier::external_body]
pub(crate) fn archive_open(bytes: &[u8]) -> (r: Result<MemZipArchive, ()>)
    ensures
        r is Ok <==> zip_parse_ok(bytes@),
        r matches Ok(a) ==> archive_source(a) == bytes@,
{
    match zip::read::ZipArchive::new(std::io::Cursor::new(bytes.to_vec())) {
        Ok(a) => Ok(a),
        Err(_) => Err(()),
    }
}

/// Relies on `zip::read::ZipArchive::len`: the entry count of the archive.
#[verifier::external_body]
pub(crate) fn archive_len(a: &MemZipArchive) -> (r: usize)
    ensures
        r == zip_num_entries(archive_source(*a)),
{
    a.len()
}

/// Relies on `zip::read::ZipArchive::by_index_decrypt`,
/// `std::io::Read::read_to_end` on `zip::read::ZipFile`, and
/// `zip::read::ZipFile::name`: reading entry 0 is a pure function of the
/// archive bytes; opening fails cleanly on an entry whose compression is
/// unsupported, that demands decryption, or that carries an encryption
/// marker this build cannot handle, and `read_to_end` fails when the
/// compressed stream is corrupt. `by_index_decrypt` is used rather than
/// `by_index` because the latter unwraps the invalid-password outcome, which
/// an unencrypted entry bearing a stray encryption marker can reach — a
/// panic on crafted bytes. The empty password handed in is discarded for
/// ordinary unencrypted entries, so their behaviour is unchanged.
#[verifier::external_body]
pub(crate) fn archive_read_first(a: &mut MemZipArchive) -> (r: Result<
    (Vec<u8>, Vec<u8>),
    ReadFirstError,
>)
    requires
        zip_parse_ok(archive_source(*old(a))),
        zip_num_entries(archive_source(*old(a))) >= 1,
    ensures
        archive_source(*final(a)) == archive_source(*old(a)),
        r is Ok <==> zip_open_first_ok(archive_source(*old(a))) && zip_read_first_ok(
            archive_source(*old(a)),
        ),
        !zip_open_first_ok(archive_source(*old(a))) ==> r matches Err(ReadFirstError::Archive),
        zip_open_first_ok(archive_source(*old(a))) && !zip_read_first_ok(
            archive_source(*old(a)),
        ) ==> r matches Err(ReadFirstError::Io),
        r matches Ok(p) ==> p.0@ == zip_first_data(archive_source(*old(a))) && p.1@
            == zip_first_name(archive_source(*old(a))),
{
    let mut file = match a.by_index_decrypt(0, b"") {
        Ok(Ok(f)) => f,
        Ok(Err(_)) => return Err(ReadFirstError::Archive),
        Err(_) => return Err(ReadFirstError::Archive),
    };
    let mut data = Vec::new();
    if std::io::Read::read_to_end(&mut file, &mut data).is_err() {
        return Err(ReadFirstError::Io);
    }
    let name = file.name().as_bytes().to_vec();
    Ok((data, name))
}

/// Relies on `core::str::from_utf8`: whether bytes are valid UTF-8 depends on
/// the bytes alone.
#[verifier::external_body]
pub(crate) fn utf8_check(bytes: &[u8]) -> (r: bool)
    ensures
        r == is_utf8(bytes@),
{
    core::str::from_utf8(bytes).is_ok()
}

} // verus!
