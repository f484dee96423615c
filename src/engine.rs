//! The re-encoding engine: copies every entry of a source container into a
//! new one, under its name decoded as Shift_JIS, without touching its data.
use vstd::prelude::*;
use zip::read::ZipFile;
use zip::result::ZipError;
use crate::archive::{
    archive_entries, entry_at, entry_comment, entry_count, file_entry, is_copyable,
    opens_without_password,
    finished_bytes, is_directory, open_archive, output_entries, parsed_archive, raw_name, stored_name,
    uncompressed_size, CopiedEntry, OutputArchive, SourceArchive, SourceEntry,
};
use crate::legacy::{decode_shift_jis, decoded_name, is_malformed, shift_jis_decode};
use crate::path_safety::{is_safe_entry_name, is_safe_name};

verus! {

/// Why a conversion failed.
pub enum FixError {
    /// The source buffer is not a readable zip container.
    Open(ZipError),
    /// The entry at `index` cannot be opened for reading without a password:
    /// it is encrypted, its local header is missing, or its compression method
    /// is not one this build reads.
    Read { index: usize },
    /// The raw name of the entry at `index` is not valid Shift_JIS.
    MalformedName { index: usize },
    /// The entry at `index` could not be copied into the output.
    Write { index: usize, error: ZipError },
    /// The output container could not be finished.
    Finish(ZipError),
}

/// What becomes of one entry once its name is decoded.
#[derive(PartialEq, Eq, Structural, Clone, Copy, Debug)]
pub enum EntryAction {
    /// The name is malformed: the whole conversion stops.
    Abort,
    /// The name is no safe relative path: the entry is left out.
    Skip,
    /// The entry is copied under its decoded name.
    Copy,
}

/// What the conversion found about one entry of the source.
pub struct EntryReport {
    pub index: usize,
    pub is_dir: bool,
    /// The name as the zip reader decodes it by itself.
    pub stored_name: String,
    /// The name decoded as Shift_JIS.
    pub decoded_name: String,
    /// The name of the encoding that decoded it.
    pub encoding: String,
    /// The uncompressed size.
    pub size: u64,
    pub comment: String,
    /// Whether the entry went into the output (else its path was unsafe).
    pub copied: bool,
}

/// The result of a successful conversion.
pub struct Converted {
    /// The bytes of the new container.
    pub archive: Vec<u8>,
    /// One report per source entry, in source order.
    pub reports: Vec<EntryReport>,
}

/// What becomes of an entry whose name decodes to `name`, with `malformed`
/// telling whether the decoding met a malformed sequence.
pub open spec fn action_for(name: Seq<char>, malformed: bool) -> EntryAction {
    if malformed {
        EntryAction::Abort
    } else if is_safe_name(name) {
        EntryAction::Copy
    } else {
        EntryAction::Skip
    }
}

/// The entries of the output for source entries `entries`: those whose
/// decoded name is safe, in order, each under its decoded name with its data.
pub open spec fn copied_entries(entries: Seq<SourceEntry>) -> Seq<CopiedEntry>
    decreases entries.len(),
{
    if entries.len() == 0 {
        Seq::empty()
    } else {
        let rest = copied_entries(entries.drop_last());
        let name = decoded_name(entries.last().0);
        if is_safe_name(name) {
            rest.push((name, entries.last().1))
        } else {
            rest
        }
    }
}

/// No raw name among `entries` is malformed.
pub open spec fn no_malformed(entries: Seq<SourceEntry>) -> bool {
    forall|k: int| 0 <= k < entries.len() ==> !is_malformed(#[trigger] entries[k].0)
}

/// The entries before `k` can all be opened and copied.
pub open spec fn copyable_upto(entries: Seq<SourceEntry>, k: int) -> bool {
    forall|j: int| 0 <= j < k ==> #[trigger] is_copyable(entries[j])
}

/// `index` is the first entry that cannot be opened, and the names of the
/// entries before it are well formed.
pub open spec fn first_unreadable(entries: Seq<SourceEntry>, index: int) -> bool {
    &&& 0 <= index < entries.len()
    &&& !is_copyable(entries[index])
    &&& copyable_upto(entries, index)
    &&& no_malformed(entries.take(index))
}

/// `index` is the first entry whose raw name is malformed, and it and the
/// entries before it can all be opened.
pub open spec fn first_malformed(entries: Seq<SourceEntry>, index: int) -> bool {
    &&& 0 <= index < entries.len()
    &&& is_malformed(entries[index].0)
    &&& no_malformed(entries.take(index))
    &&& copyable_upto(entries, index + 1)
}

/// `r` describes the entry `e`, whatever its index.
pub open spec fn report_describes(r: EntryReport, e: SourceEntry) -> bool {
    &&& r.decoded_name@ == decoded_name(e.0)
    &&& r.encoding@ == shift_jis_decode(e.0).1
    &&& r.copied == is_safe_name(decoded_name(e.0))
    &&& r.stored_name@ == e.2.0
    &&& r.is_dir == e.2.1
    &&& r.comment@ == e.2.2
    &&& r.size == e.1.3
}

/// `reports` describes `entries` one for one.
pub open spec fn reports_match(reports: Seq<EntryReport>, entries: Seq<SourceEntry>) -> bool {
    &&& reports.len() == entries.len()
    &&& forall|k: int|
        0 <= k < reports.len() ==> #[trigger] reports[k].index == k && report_describes(
            reports[k],
            entries[k],
        )
}

/// Decides what becomes of an entry from its decoded name and the flag that
/// reports a malformed raw name.
pub fn decide_entry(name: &str, malformed: bool) -> (r: EntryAction)
    ensures
        r == action_for(name@, malformed),
{
    if malformed {
        EntryAction::Abort
    } else if is_safe_entry_name(name) {
        EntryAction::Copy
    } else {
        EntryAction::Skip
    }
}

/// Handles the entry `f`, found at `index` in the source: copies it into `dst`
/// under its decoded name when that name is safe, and reports on it.
fn convert_entry(f: ZipFile, index: usize, dst: &mut OutputArchive) -> (r: Result<
    EntryReport,
    FixError,
>)
    ensures
        ({
            let e = file_entry(f);
            let name = decoded_name(e.0);
            &&& r is Ok <==> !is_malformed(e.0)
            &&& r is Err ==> r->Err_0 is MalformedName && r->Err_0->MalformedName_index == index
            &&& r is Ok ==> {
                &&& report_describes(r->Ok_0, e)
                &&& r->Ok_0.index == index
                &&& output_entries(*final(dst)) == if is_safe_name(name) {
                    output_entries(*old(dst)).push((name, e.1))
                } else {
                    output_entries(*old(dst))
                }
            }
            &&& r is Err ==> output_entries(*final(dst)) == output_entries(*old(dst))
        }),
{
    let raw = raw_name(&f);
    let (name, encoding, malformed) = decode_shift_jis(raw.as_slice());
    let action = decide_entry(name.as_str(), malformed);
    if action == EntryAction::Abort {
        return Err(FixError::MalformedName { index });
    }
    let report = EntryReport {
        index: index,
        is_dir: is_directory(&f),
        stored_name: stored_name(&f),
        decoded_name: name.clone(),
        encoding,
        size: uncompressed_size(&f),
        comment: entry_comment(&f),
        copied: action == EntryAction::Copy,
    };
    if action == EntryAction::Copy {
        match dst.copy_renamed(f, name) {
            Ok(()) => {},
            Err(e) => {
                return Err(FixError::Write { index, error: e });
            },
        }
    }
    Ok(report)
}

/// Copies the entries of `src` into `dst` in order, each under its decoded
/// name, leaving out those whose decoded name is unsafe. It stops at the first
/// entry that cannot be opened without a password or whose name is malformed, and succeeds exactly
/// when there is none.
pub fn convert_entries(src: &mut SourceArchive, dst: &mut OutputArchive) -> (r: Result<
    Vec<EntryReport>,
    FixError,
>)
    ensures
        archive_entries(*final(src)) == archive_entries(*old(src)),
        r is Ok <==> no_malformed(archive_entries(*old(src))) && copyable_upto(
            archive_entries(*old(src)),
            archive_entries(*old(src)).len() as int,
        ),
        r is Ok ==> output_entries(*final(dst)) == output_entries(*old(dst)) + copied_entries(
            archive_entries(*old(src)),
        ),
        r is Ok ==> reports_match(r->Ok_0@, archive_entries(*old(src))),
        r is Err ==> r->Err_0 is Read || r->Err_0 is MalformedName,
        r is Err && r->Err_0 is Read ==> first_unreadable(
            archive_entries(*old(src)),
            r->Err_0->Read_index as int,
        ),
        r is Err && r->Err_0 is MalformedName ==> first_malformed(
            archive_entries(*old(src)),
            r->Err_0->MalformedName_index as int,
        ),
{
    let ghost entries = archive_entries(*src);
    let ghost out0 = output_entries(*dst);
    let n = entry_count(src);
    let mut reports: Vec<EntryReport> = Vec::new();
    let mut i: usize = 0;
    while i < n
        invariant
            entries == archive_entries(*old(src)),
            out0 == output_entries(*old(dst)),
            archive_entries(*src) == entries,
            n == entries.len(),
            i <= n,
            output_entries(*dst) == out0 + copied_entries(entries.take(i as int)),
            no_malformed(entries.take(i as int)),
            copyable_upto(entries, i as int),
            reports_match(reports@, entries.take(i as int)),
        decreases n - i,
    {
        let outcome: Result<EntryReport, FixError> = if !opens_without_password(src, i) {
            Err(FixError::Read { index: i })
        } else {
            match entry_at(src, i) {
                Err(_) => Err(FixError::Read { index: i }),
                Ok(f) => convert_entry(f, i, dst),
            }
        };
        let report = match outcome {
            Ok(report) => report,
            Err(e) => {
                assert(entries.take(i as int) =~= entries.take(i as int).take(i as int));
                assert(!no_malformed(entries) || !copyable_upto(entries, n as int)) by {
                    if !is_copyable(entries[i as int]) {
                    } else {
                        assert(is_malformed(entries[i as int].0));
                    }
                }
                return Err(e);
            },
        };
        assert(entries.take(i + 1).drop_last() =~= entries.take(i as int));
        reports.push(report);
        assert(out0 + copied_entries(entries.take(i + 1)) =~= output_entries(*dst));
        assert(no_malformed(entries.take(i + 1)));
        assert(copyable_upto(entries, i + 1));
        assert(reports_match(reports@, entries.take(i + 1)));
        i = i + 1;
    }
    assert(entries.take(n as int) =~= entries);
    Ok(reports)
}

/// Opens a source container held in memory: it succeeds exactly when the
/// bytes parse as a zip container, and then holds the entries found there.
pub fn open_source(bytes: Vec<u8>) -> (r: Result<SourceArchive, FixError>)
    ensures
        r is Ok <==> parsed_archive(bytes@) is Some,
        r is Ok ==> archive_entries(r->Ok_0) == parsed_archive(bytes@)->Some_0,
        r is Err ==> r->Err_0 is Open,
{
    match open_archive(bytes) {
        Ok(a) => Ok(a),
        Err(e) => Err(FixError::Open(e)),
    }
}

/// Converts a whole source container: a new container holding the entries
/// with safe decoded names, in order, under those names and with their stored
/// bytes and compression metadata unchanged, finished once every entry has
/// been handled. It succeeds exactly when every entry can be opened without a
/// password and no name
/// is malformed; otherwise it reports the first entry that stops it.
pub fn fix_mojibake(source: &mut SourceArchive) -> (r: Result<Converted, FixError>)
    ensures
        archive_entries(*final(source)) == archive_entries(*old(source)),
        r is Ok <==> no_malformed(archive_entries(*old(source))) && copyable_upto(
            archive_entries(*old(source)),
            archive_entries(*old(source)).len() as int,
        ),
        r is Ok ==> reports_match(r->Ok_0.reports@, archive_entries(*old(source))),
        r is Ok ==> exists|w: OutputArchive|
            output_entries(w) == copied_entries(archive_entries(*old(source)))
                && r->Ok_0.archive@ == #[trigger] finished_bytes(w),
        r is Err ==> r->Err_0 is Read || r->Err_0 is MalformedName,
        r is Err && r->Err_0 is Read ==> first_unreadable(
            archive_entries(*old(source)),
            r->Err_0->Read_index as int,
        ),
        r is Err && r->Err_0 is MalformedName ==> first_malformed(
            archive_entries(*old(source)),
            r->Err_0->MalformedName_index as int,
        ),
{
    let mut out = OutputArchive::new();
    let reports = match convert_entries(source, &mut out) {
        Ok(reports) => reports,
        Err(e) => {
            return Err(e);
        },
    };
    assert(output_entries(out) =~= copied_entries(archive_entries(*old(source))));
    match out.finish() {
        Ok(archive) => Ok(Converted { archive, reports }),
        Err(e) => Err(FixError::Finish(e)),
    }
}

} // verus!
