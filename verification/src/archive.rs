//! Firmware packages: reading a zip archive held in memory and planning its
//! extraction into a directory tree.

use vstd::prelude::*;
use crate::text::{ends_with_slash, option_text, text_ends_with_slash};

verus! {

/// `zip::ZipArchive`, the reader of the `zip` crate. Nothing of its inside is
/// visible here.
#[verifier::external_type_specification]
#[verifier::external_body]
#[verifier::reject_recursive_types(R)]
pub struct ExZipArchive<R>(zip::ZipArchive<R>);

/// `std::io::Cursor`, a reading position over bytes held in memory.
#[verifier::external_type_specification]
#[verifier::external_body]
#[verifier::reject_recursive_types(T)]
pub struct ExCursor<T>(std::io::Cursor<T>);

/// What reading one entry of an archive gives: `Err` with the reason where the
/// entry cannot be opened; otherwise its name, and its decompressed bytes or
/// the reason why they cannot be read.
pub type EntryOutcome = Result<(Seq<char>, Result<Seq<u8>, Seq<char>>), Seq<char>>;

/// What `zip::ZipArchive::new` makes of the bytes of a file: the outcome of
/// each entry, in the order of the central directory, or the reason why the
/// bytes are no archive.
pub uninterp spec fn zip_directory(bytes: Seq<u8>) -> Result<Seq<EntryOutcome>, Seq<char>>;

/// The entries that an opened archive holds, in the order of their indices.
pub uninterp spec fn archive_entries(archive: zip::ZipArchive<std::io::Cursor<Vec<u8>>>) -> Seq<EntryOutcome>;

/// Calls `zip::ZipArchive::new` on a cursor over `bytes`. The claim is that
/// the outcome depends on the bytes alone: either an archive whose entries are
/// those of `zip_directory`, or the text of the error.
#[verifier::external_body]
fn open_archive(bytes: Vec<u8>) -> (r: Result<zip::ZipArchive<std::io::Cursor<Vec<u8>>>, String>)
    ensures
        match r {
            Ok(archive) => zip_directory(bytes@) == Ok::<Seq<EntryOutcome>, Seq<char>>(archive_entries(archive)),
            Err(reason) => zip_directory(bytes@) == Err::<Seq<EntryOutcome>, Seq<char>>(reason@),
        },
{
    zip::ZipArchive::new(std::io::Cursor::new(bytes)).map_err(|e| e.to_string())
}

/// Calls `zip::ZipArchive::len`: the number of entries.
#[verifier::external_body]
fn entry_count(archive: &zip::ZipArchive<std::io::Cursor<Vec<u8>>>) -> (n: usize)
    ensures
        n == archive_entries(*archive).len(),
{
    archive.len()
}

/// Calls `zip::ZipArchive::by_index_decrypt` with an empty password and hands
/// out the name of the opened entry (`zip::read::ZipFile::name`). That call
/// opens an entry without a password as `by_index` does, and returns an error
/// value where `by_index` would stop the program. The claim is that the
/// outcome is that of entry `index` in `archive_entries`, the error as its
/// text, and that the archive's entries stay as they were.
#[verifier::external_body]
fn entry_name(archive: &mut zip::ZipArchive<std::io::Cursor<Vec<u8>>>, index: usize) -> (r: Result<String, String>)
    requires
        index < archive_entries(*old(archive)).len(),
    ensures
        archive_entries(*final(archive)) == archive_entries(*old(archive)),
        match archive_entries(*old(archive))[index as int] {
            Ok(entry) => r matches Ok(name) && name@ == entry.0,
            Err(reason) => r matches Err(text) && text@ == reason,
        },
{
    match archive.by_index_decrypt(index, &[]) {
        Ok(Ok(file)) => Ok(file.name().to_string()),
        Ok(Err(e)) => Err(e.to_string()),
        Err(e) => Err(e.to_string()),
    }
}

/// Calls `zip::ZipArchive::by_index_decrypt` with an empty password and reads
/// the opened entry to its end (`std::io::Read::read_to_end`), which
/// decompresses the bytes and compares them with the entry's checksum. The
/// claim is that the outcome is that of entry `index` in `archive_entries`,
/// the error as its text, and that the archive's entries stay as they were.
#[verifier::external_body]
fn entry_data(archive: &mut zip::ZipArchive<std::io::Cursor<Vec<u8>>>, index: usize) -> (r: Result<Vec<u8>, String>)
    requires
        index < archive_entries(*old(archive)).len(),
    ensures
        archive_entries(*final(archive)) == archive_entries(*old(archive)),
        match archive_entries(*old(archive))[index as int] {
            Ok(entry) => match entry.1 {
                Ok(bytes) => r matches Ok(data) && data@ == bytes,
                Err(reason) => r matches Err(text) && text@ == reason,
            },
            Err(reason) => r matches Err(text) && text@ == reason,
        },
{
    let mut data = Vec::new();
    match archive.by_index_decrypt(index, &[]) {
        Ok(Ok(mut file)) => match std::io::Read::read_to_end(&mut file, &mut data) {
            Ok(_) => Ok(data),
            Err(e) => Err(e.to_string()),
        },
        Ok(Err(e)) => Err(e.to_string()),
        Err(e) => Err(e.to_string()),
    }
}

/// One step of an extraction. `name` is the entry's name as the archive gives
/// it, to be joined to the extraction root; nothing is removed from it, so a
/// name that is absolute or climbs with `..` designates a place outside the
/// root.
#[derive(Debug, PartialEq, Eq)]
pub enum ExtractOp {
    /// Create the directory `name` and its missing parents.
    MakeDir { name: String },
    /// Create the missing parents of `name`, then create or replace the file
    /// `name` with exactly `data`.
    WriteFile { name: String, data: Vec<u8> },
}

/// An extraction step as mathematics.
pub enum OpModel {
    MakeDir(Seq<char>),
    WriteFile(Seq<char>, Seq<u8>),
}

impl View for ExtractOp {
    type V = OpModel;

    open spec fn view(&self) -> OpModel {
        match self {
            ExtractOp::MakeDir { name } => OpModel::MakeDir(name@),
            ExtractOp::WriteFile { name, data } => OpModel::WriteFile(name@, data@),
        }
    }
}

/// The steps of a list, as mathematics.
pub open spec fn ops_of(ops: Seq<ExtractOp>) -> Seq<OpModel> {
    ops.map_values(|op: ExtractOp| op@)
}

/// The steps that unpack a package, and the reason why unpacking stops after
/// them, if it does.
#[derive(Debug, PartialEq, Eq)]
pub struct ExtractionPlan {
    /// The steps to perform, in order.
    pub ops: Vec<ExtractOp>,
    /// Why the package could not be unpacked further than `ops`.
    pub fault: Option<String>,
}

/// Whether an entry name denotes a directory.
pub open spec fn is_directory_name(name: Seq<char>) -> bool {
    ends_with_slash(name)
}

/// Why an entry stops the extraction, if it does: it cannot be opened, or it
/// is a file whose bytes cannot be read.
pub open spec fn entry_fault(entry: EntryOutcome) -> Option<Seq<char>> {
    match entry {
        Err(reason) => Some(reason),
        Ok((name, data)) => if is_directory_name(name) {
            None
        } else {
            match data {
                Ok(_) => None,
                Err(reason) => Some(reason),
            }
        },
    }
}

/// The step that unpacks an entry which does not stop the extraction.
pub open spec fn entry_op(entry: EntryOutcome) -> OpModel
    recommends
        entry_fault(entry) is None,
{
    let (name, data) = entry->Ok_0;
    if is_directory_name(name) {
        OpModel::MakeDir(name)
    } else {
        OpModel::WriteFile(name, data->Ok_0)
    }
}

/// The plan for a list of entries: one step for each entry before the first
/// that stops the extraction, and that entry's reason.
pub open spec fn plans(entries: Seq<EntryOutcome>, ops: Seq<OpModel>, fault: Option<Seq<char>>) -> bool {
    &&& ops.len() <= entries.len()
    &&& forall|i: int| 0 <= i < ops.len() ==> entry_fault(#[trigger] entries[i]) is None && ops[i] == entry_op(entries[i])
    &&& if ops.len() == entries.len() {
        fault is None
    } else {
        fault is Some && fault == entry_fault(entries[ops.len() as int])
    }
}

/// The plan for the bytes of a package file: that of its entries, or no step
/// and the reason where the bytes are no archive.
pub open spec fn is_plan_of(bytes: Seq<u8>, ops: Seq<OpModel>, fault: Option<Seq<char>>) -> bool {
    match zip_directory(bytes) {
        Ok(entries) => plans(entries, ops, fault),
        Err(reason) => ops.len() == 0 && fault == Some(reason),
    }
}

/// Whether an entry name denotes a directory: it ends in `/`.
pub fn is_directory_entry(name: &str) -> (r: bool)
    ensures
        r == is_directory_name(name@),
{
    text_ends_with_slash(name)
}

/// The step for an entry: a directory step where `data` is `None`, as it is
/// for a directory entry, whose bytes are never read; otherwise a file step
/// with the bytes that were read, or the reason why they could not be read.
pub fn plan_entry(name: String, data: Option<Result<Vec<u8>, String>>) -> (r: Result<ExtractOp, String>)
    ensures
        match data {
            None => r == Ok::<ExtractOp, String>(ExtractOp::MakeDir { name }),
            Some(Ok(bytes)) => r == Ok::<ExtractOp, String>(ExtractOp::WriteFile { name, data: bytes }),
            Some(Err(reason)) => r == Err::<ExtractOp, String>(reason),
        },
{
    match data {
        None => Ok(ExtractOp::MakeDir { name }),
        Some(Ok(bytes)) => Ok(ExtractOp::WriteFile { name, data: bytes }),
        Some(Err(reason)) => Err(reason),
    }
}

/// Plans the extraction of the package whose file holds `bytes`. Entries are
/// taken in the order of the archive, and their names verbatim. The plan stops
/// at the first entry that cannot be read; where the bytes are no archive at
/// all it has no step.
pub fn plan_extraction(bytes: Vec<u8>) -> (plan: ExtractionPlan)
    ensures
        is_plan_of(bytes@, ops_of(plan.ops@), option_text(plan.fault)),
{
    let ghost raw = bytes@;
    let mut ops: Vec<ExtractOp> = Vec::new();
    let mut archive = match open_archive(bytes) {
        Ok(archive) => archive,
        Err(reason) => {
            return ExtractionPlan { ops, fault: Some(reason) };
        },
    };
    let ghost entries = archive_entries(archive);
    let count: usize = entry_count(&archive);
    let mut i: usize = 0;
    while i < count
        invariant
            i <= count,
            count == entries.len(),
            raw == bytes@,
            zip_directory(raw) == Ok::<Seq<EntryOutcome>, Seq<char>>(entries),
            archive_entries(archive) == entries,
            ops@.len() == i,
            forall|k: int| 0 <= k < i ==> entry_fault(#[trigger] entries[k]) is None && ops_of(ops@)[k] == entry_op(entries[k]),
        decreases count - i,
    {
        let name: String = match entry_name(&mut archive, i) {
            Ok(name) => name,
            Err(reason) => {
                return ExtractionPlan { ops, fault: Some(reason) };
            },
        };
        let data: Option<Result<Vec<u8>, String>> = if is_directory_entry(name.as_str()) {
            None
        } else {
            Some(entry_data(&mut archive, i))
        };
        let ghost before = ops_of(ops@);
        match plan_entry(name, data) {
            Ok(op) => {
                ops.push(op);
                proof {
                    assert(ops_of(ops@) =~= before.push(op@));
                }
            },
            Err(reason) => {
                return ExtractionPlan { ops, fault: Some(reason) };
            },
        }
        i = i + 1;
    }
    ExtractionPlan { ops, fault: None }
}

} // verus!
