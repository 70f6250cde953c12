//! Reading zip archives held in memory through the `zip` crate.

use vstd::prelude::*;
use std::io::Read;

verus! {

/// An I/O cursor over an in-memory buffer.
#[verifier::external_type_specification]
#[verifier::external_body]
#[verifier::reject_recursive_types(T)]
pub struct ExCursor<T>(std::io::Cursor<T>);

/// A zip archive read through `R`.
#[verifier::external_type_specification]
#[verifier::external_body]
#[verifier::reject_recursive_types(R)]
pub struct ExZipArchive<R>(zip::ZipArchive<R>);

/// One entry of a zip archive as the `zip` crate reads it: `None` where
/// `ZipArchive::by_index` fails on it; otherwise its name, whether it is a
/// directory, and its decompressed bytes (`None` where reading them fails).
pub type ZipEntryView = Option<(Seq<char>, bool, Option<Seq<u8>>)>;

/// What `zip::ZipArchive::new` makes of the bytes `data`: `None` where it
/// reports an error, otherwise the entries of the archive, in index order.
pub uninterp spec fn zip_archive_read(data: Seq<u8>) -> Option<Seq<ZipEntryView>>;

/// The entries of an opened archive, in index order.
pub uninterp spec fn zip_entries(archive: zip::ZipArchive<std::io::Cursor<Vec<u8>>>) -> Seq<
    ZipEntryView,
>;

/// Why an entry could not be read.
pub enum ZipReadError {
    /// The entry itself could not be located or decoded.
    Entry(String),
    /// Its content could not be read.
    Read(String),
}

/// Opens the zip archive held in `data`.
/// Trusted: calls `zip::ZipArchive::new` on a cursor over the bytes. The
/// contract names what it reads `zip_archive_read`, a function of the bytes
/// alone, and says that an error comes exactly where that has no value; the
/// error's text is left unstated.
#[verifier::external_body]
pub(crate) fn zip_open(data: Vec<u8>) -> (res: Result<zip::ZipArchive<std::io::Cursor<Vec<u8>>>, String>)
    ensures
        res is Ok <==> zip_archive_read(data@) is Some,
        res matches Ok(a) ==> zip_archive_read(data@) == Some(zip_entries(a)),
{
    zip::ZipArchive::new(std::io::Cursor::new(data)).map_err(|e| e.to_string())
}

/// The number of entries of an archive.
/// Trusted: calls `zip::ZipArchive::len`, which counts the entries.
#[verifier::external_body]
pub(crate) fn zip_len(archive: &zip::ZipArchive<std::io::Cursor<Vec<u8>>>) -> (res: usize)
    ensures
        res == zip_entries(*archive).len(),
{
    archive.len()
}

/// The name of entry `i` and whether it is a directory.
/// Trusted: calls `zip::ZipArchive::by_index` and then `ZipFile::name` and
/// `ZipFile::is_dir`. Reading moves the archive's cursor only, so the
/// entries stay as they were; the error's text is left unstated.
#[verifier::external_body]
pub(crate) fn zip_entry_header(archive: &mut zip::ZipArchive<std::io::Cursor<Vec<u8>>>, i: usize) -> (res:
    Result<(String, bool), String>)
    requires
        i < zip_entries(*old(archive)).len(),
    ensures
        zip_entries(*final(archive)) == zip_entries(*old(archive)),
        res is Ok <==> zip_entries(*old(archive))[i as int] is Some,
        res matches Ok((name, is_dir)) ==> (zip_entries(*old(archive))[i as int] matches Some(e)
            && e.0 == name@ && e.1 == is_dir),
{
    archive.by_index(i).map(|f| (f.name().to_string(), f.is_dir())).map_err(|e| e.to_string())
}

/// The decompressed bytes of entry `i`.
/// Trusted: calls `zip::ZipArchive::by_index` and reads the entry with
/// `Read::read_to_end`. The entries stay as they were; the errors' texts
/// are left unstated.
#[verifier::external_body]
pub(crate) fn zip_entry_bytes(archive: &mut zip::ZipArchive<std::io::Cursor<Vec<u8>>>, i: usize) -> (res:
    Result<Vec<u8>, ZipReadError>)
    requires
        i < zip_entries(*old(archive)).len(),
    ensures
        zip_entries(*final(archive)) == zip_entries(*old(archive)),
        res matches Err(ZipReadError::Entry(_)) <==> zip_entries(*old(archive))[i as int] is None,
        res matches Ok(v) ==> zip_entries(*old(archive))[i as int] matches Some(e) && e.2 == Some(
            v@,
        ),
        res matches Err(ZipReadError::Read(_)) ==> zip_entries(*old(archive))[i as int] matches Some(
            e,
        ) && e.2 is None,
{
    let mut entry = archive.by_index(i).map_err(|e| ZipReadError::Entry(e.to_string()))?;
    let mut buf = Vec::new();
    entry.read_to_end(&mut buf).map_err(|e| ZipReadError::Read(e.to_string()))?;
    Ok(buf)
}

/// The content of entry `i` as UTF-8 text.
/// Trusted: calls `zip::ZipArchive::by_index` and reads the entry with
/// `Read::read_to_string`, which fails where the content cannot be read or
/// is not valid UTF-8. The entries stay as they were; the errors' texts are
/// left unstated.
#[verifier::external_body]
pub(crate) fn zip_entry_text(archive: &mut zip::ZipArchive<std::io::Cursor<Vec<u8>>>, i: usize) -> (res:
    Result<String, ZipReadError>)
    requires
        i < zip_entries(*old(archive)).len(),
    ensures
        zip_entries(*final(archive)) == zip_entries(*old(archive)),
        res matches Err(ZipReadError::Entry(_)) <==> zip_entries(*old(archive))[i as int] is None,
        res matches Ok(s) ==> zip_entries(*old(archive))[i as int] matches Some(e) && e.2 == Some(
            vstd::utf8::encode_utf8(s@),
        ),
        res matches Err(ZipReadError::Read(_)) ==> zip_entries(*old(archive))[i as int] matches Some(
            e,
        ) && (e.2 is None || !vstd::utf8::valid_utf8(e.2->0)),
{
    let mut entry = archive.by_index(i).map_err(|e| ZipReadError::Entry(e.to_string()))?;
    let mut text = String::new();
    entry.read_to_string(&mut text).map_err(|e| ZipReadError::Read(e.to_string()))?;
    Ok(text)
}

} // verus!
