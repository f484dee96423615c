//! The zip containers the engine reads from and writes to, seen through
//! models of their entries.
use vstd::prelude::*;
use std::io::Cursor;
use zip::read::{ZipArchive, ZipFile};
use zip::result::ZipError;
use zip::write::ZipWriter;

verus! {

#[verifier::external_type_specification]
#[verifier::external_body]
#[verifier::reject_recursive_types(T)]
pub struct ExCursor<T>(Cursor<T>);

#[verifier::external_type_specification]
#[verifier::external_body]
pub struct ExZipError(ZipError);

#[verifier::external_type_specification]
#[verifier::external_body]
#[verifier::reject_recursive_types(R)]
pub struct ExZipArchive<R>(ZipArchive<R>);

#[verifier::external_type_specification]
#[verifier::external_body]
pub struct ExZipFile<'a>(ZipFile<'a>);

/// A source container read from an in-memory byte buffer.
pub type SourceArchive = ZipArchive<Cursor<Vec<u8>>>;

/// What a raw copy carries over of an entry, as the zip reader reports it:
/// the stored (still compressed) bytes, the compression method code, the
/// CRC-32, the uncompressed size, and the modification time in its stored
/// (date part, time part) form.
pub type StoredRecord = (Seq<u8>, u16, u32, u64, (u16, u16));

/// What the zip reader reports of an entry besides: its own decoding of the
/// name, whether the entry marks a directory, and its comment.
pub type EntryInfo = (Seq<char>, bool, Seq<char>);

/// Facts from the central directory and the local header of an entry: whether
/// its encryption flag is set, whether it carries an AES extra field, and
/// whether its local header is found where the central directory says.
pub type EntryFlags = (bool, bool, bool);

/// An entry of a source container: its raw stored name, its stored record,
/// its info and its flags.
pub type SourceEntry = (Seq<u8>, StoredRecord, EntryInfo, EntryFlags);

/// Whether the zip reader can open the entry for reading without a password,
/// so that a copy of it is a valid plain entry: it is not encrypted, has no AES
/// field, its local header is found, and its compression method is one this
/// build reads (stored or deflated).
pub open spec fn is_copyable(e: SourceEntry) -> bool {
    &&& !e.3.0
    &&& !e.3.1
    &&& e.3.2
    &&& (e.1.1 == 0 || e.1.1 == 8)
}

/// An entry of an output container: the name it is stored under and its
/// stored record.
pub type CopiedEntry = (Seq<char>, StoredRecord);

/// The entries of a source container, in central-directory order.
pub uninterp spec fn archive_entries(a: SourceArchive) -> Seq<SourceEntry>;

/// The entry an open entry handle refers to.
pub uninterp spec fn file_entry(f: ZipFile) -> SourceEntry;

/// The entries that parsing `bytes` as a zip container finds, when it can be
/// parsed.
pub uninterp spec fn parsed_archive(bytes: Seq<u8>) -> Option<Seq<SourceEntry>>;

/// The entries appended so far to an output container.
pub uninterp spec fn output_entries(w: OutputArchive) -> Seq<CopiedEntry>;

/// The bytes of an output container once it is finished.
pub uninterp spec fn finished_bytes(w: OutputArchive) -> Seq<u8>;

/// Relies on `ZipArchive::new`, which parses the central directory of the
/// buffer and fails on data that is no zip container. What it finds depends on
/// the bytes alone.
#[verifier::external_body]
pub(crate) fn open_archive(bytes: Vec<u8>) -> (r: Result<SourceArchive, ZipError>)
    ensures
        r is Ok <==> parsed_archive(bytes@) is Some,
        r is Ok ==> archive_entries(r->Ok_0) == parsed_archive(bytes@)->Some_0,
{
    ZipArchive::new(Cursor::new(bytes))
}

/// Relies on `ZipArchive::len`: the number of entries in the central directory.
#[verifier::external_body]
pub(crate) fn entry_count(a: &SourceArchive) -> (r: usize)
    ensures
        r == archive_entries(*a).len(),
{
    a.len()
}

/// Relies on `ZipArchive::by_index_decrypt` with an empty password: whether
/// the entry at index `i` opens. An entry without the encryption flag opens
/// unless it has an AES field, its local header is missing or its method is
/// not read; so an entry that opens and has no encryption flag has no AES
/// field. The handle is dropped at once, and the list of entries is left as
/// it was.
#[verifier::external_body]
pub(crate) fn opens_without_password(a: &mut SourceArchive, i: usize) -> (r: bool)
    ensures
        archive_entries(*final(a)) == archive_entries(*old(a)),
        r ==> i < archive_entries(*old(a)).len() && (archive_entries(*old(a))[i as int].3.0
            || !archive_entries(*old(a))[i as int].3.1),
        i < archive_entries(*old(a)).len() && is_copyable(archive_entries(*old(a))[i as int])
            ==> r,
{
    match a.by_index_decrypt(i, b"") {
        Ok(Ok(_)) => true,
        _ => false,
    }
}

/// Relies on `ZipArchive::by_index`: a handle on the entry at index `i`. It
/// fails when there is no such entry, the entry is encrypted, its local header
/// is missing or its method is not read; the `requires` keeps out the one case
/// in which it panics (an AES field without the encryption flag). The list of
/// entries is left as it was.
#[verifier::external_body]
pub(crate) fn entry_at(a: &mut SourceArchive, i: usize) -> (r: Result<ZipFile<'_>, ZipError>)
    requires
        i < archive_entries(*old(a)).len() ==> (archive_entries(*old(a))[i as int].3.0
            || !archive_entries(*old(a))[i as int].3.1),
    ensures
        archive_entries(*final(a)) == archive_entries(*old(a)),
        r is Ok <==> (i < archive_entries(*old(a)).len() && is_copyable(
            archive_entries(*old(a))[i as int],
        )),
        r is Ok ==> file_entry(r->Ok_0) == archive_entries(*old(a))[i as int],
{
    a.by_index(i)
}

/// Relies on `ZipFile::name_raw`: the name bytes as stored in the container.
#[verifier::external_body]
pub(crate) fn raw_name(f: &ZipFile) -> (r: Vec<u8>)
    ensures
        r@ == file_entry(*f).0,
{
    f.name_raw().to_vec()
}

/// Relies on `ZipFile::name`: the name as the zip reader itself decodes it.
#[verifier::external_body]
pub(crate) fn stored_name(f: &ZipFile) -> (r: String)
    ensures
        r@ == file_entry(*f).2.0,
{
    f.name().to_string()
}

/// Relies on `ZipFile::is_dir`: whether the entry marks a directory.
#[verifier::external_body]
pub(crate) fn is_directory(f: &ZipFile) -> (r: bool)
    ensures
        r == file_entry(*f).2.1,
{
    f.is_dir()
}

/// Relies on `ZipFile::size`: the uncompressed size of the entry.
#[verifier::external_body]
pub(crate) fn uncompressed_size(f: &ZipFile) -> (r: u64)
    ensures
        r == file_entry(*f).1.3,
{
    f.size()
}

/// Relies on `ZipFile::comment`: the entry's comment, possibly empty.
#[verifier::external_body]
pub(crate) fn entry_comment(f: &ZipFile) -> (r: String)
    ensures
        r@ == file_entry(*f).2.2,
{
    f.comment().to_string()
}

/// A new container being written into an in-memory buffer.
#[verifier::external_body]
pub struct OutputArchive {
    inner: ZipWriter<Cursor<Vec<u8>>>,
}

impl OutputArchive {
    /// Relies on `ZipWriter::new`: a writer that holds no entry yet.
    #[verifier::external_body]
    pub(crate) fn new() -> (r: OutputArchive)
        ensures
            output_entries(r) == Seq::<CopiedEntry>::empty(),
    {
        OutputArchive { inner: ZipWriter::new(Cursor::new(Vec::new())) }
    }

    /// Relies on `ZipWriter::raw_copy_file_rename`: appends the entry under
    /// `name`, copying its stored bytes, compression method, CRC-32, sizes and
    /// modification time as they are, without decompressing anything. Writing
    /// into an in-memory buffer does not fail.
    #[verifier::external_body]
    pub(crate) fn copy_renamed(&mut self, f: ZipFile, name: String) -> (r: Result<(), ZipError>)
        ensures
            r is Ok,
            output_entries(*final(self)) == output_entries(*old(self)).push(
                (name@, file_entry(f).1),
            ),
    {
        self.inner.raw_copy_file_rename(f, name)
    }

    /// Relies on `ZipWriter::finish`: writes the central directory and hands
    /// back the buffer. Writing into an in-memory buffer does not fail.
    #[verifier::external_body]
    pub(crate) fn finish(self) -> (r: Result<Vec<u8>, ZipError>)
        ensures
            r is Ok,
            r->Ok_0@ == finished_bytes(self),
    {
        let mut w = self.inner;
        match w.finish() {
            Ok(c) => Ok(c.into_inner()),
            Err(e) => Err(e),
        }
    }
}

} // verus!
