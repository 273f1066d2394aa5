//! Zip archives built in memory.

use vstd::prelude::*;
use vstd::utf8::encode_utf8;

verus! {

/// How an entry's bytes are stored.
#[derive(Debug, Clone, Copy, PartialEq, Eq, Structural)]
pub enum Compression {
    Stored,
    Deflated,
}

/// One file of an archive.
#[derive(Debug)]
pub struct Entry {
    pub name: String,
    /// Unix permission bits.
    pub mode: u32,
    pub compression: Compression,
    pub data: Vec<u8>,
}

/// Mathematical value of an [`Entry`].
pub struct EntryView {
    pub name: Seq<char>,
    pub mode: u32,
    pub compression: Compression,
    pub data: Seq<u8>,
}

impl View for Entry {
    type V = EntryView;

    open spec fn view(&self) -> EntryView {
        EntryView {
            name: self.name@,
            mode: self.mode,
            compression: self.compression,
            data: self.data@,
        }
    }
}

/// A `zip::ZipWriter` over a buffer in memory. It is opaque to the proofs:
/// all that is known of it is what [`written`] and [`intact`] name.
#[verifier::external_body]
pub struct ArchiveWriter {
    inner: zip::ZipWriter<std::io::Cursor<Vec<u8>>>,
}

/// `zip::result::ZipError`, carried from the writer to [`failure_text`] as it
/// is.
#[verifier::external_type_specification]
#[verifier::external_body]
pub struct ExZipError(zip::result::ZipError);

/// The entries that were added to a writer, first to last.
pub uninterp spec fn written(writer: ArchiveWriter) -> Seq<EntryView>;

/// No call on the writer has failed. A writer is used no further once one
/// has.
pub uninterp spec fn intact(writer: ArchiveWriter) -> bool;

/// Whether a writer that holds `before` takes `entry` as its next one. It
/// refuses, for one, a name that it holds already.
pub uninterp spec fn accepted(before: Seq<EntryView>, entry: EntryView) -> bool;

/// The bytes of the finished archive that holds `entries`; `None` where the
/// writer cannot finish it.
pub uninterp spec fn archive_image(entries: Seq<EntryView>) -> Option<Seq<u8>>;

/// A writer over an empty buffer.
///
/// Calls `zip::ZipWriter::new` on a `std::io::Cursor` over an empty `Vec`.
/// Trusted: no entry has been added, and nothing has failed.
#[verifier::external_body]
fn new_writer() -> (writer: ArchiveWriter)
    ensures
        written(writer) == Seq::<EntryView>::empty(),
        intact(writer),
{
    ArchiveWriter { inner: zip::ZipWriter::new(std::io::Cursor::new(Vec::new())) }
}

/// The longest name that an archive can hold, in bytes of UTF-8: the format
/// keeps the length of a name in sixteen bits.
pub const NAME_LIMIT: usize = 65535;

/// The report for an entry whose name is longer than [`NAME_LIMIT`].
pub const LONG_NAME_TEXT: &'static str = "entry name is longer than 65535 bytes";

/// The entry's name is short enough for an archive.
pub open spec fn name_fits(entry: EntryView) -> bool {
    encode_utf8(entry.name).len() <= NAME_LIMIT
}

/// An entry as a writer keeps it: of the mode, only the permission bits.
pub open spec fn kept(entry: EntryView) -> EntryView {
    EntryView { mode: entry.mode & 0o777, ..entry }
}

/// Adds one entry with all of its bytes.
///
/// Calls `zip::ZipWriter::start_file`, with options made by
/// `SimpleFileOptions::default`, `compression_method`, `unix_permissions` and
/// `last_modified_time` (always the first moment that the format can hold),
/// then `std::io::Write::write_all` on the writer. Trusted: whether the call
/// succeeds depends on nothing but the entries held and the new one, as
/// `accepted` names it; on success the entry stands last, under the given
/// name, with the permission bits that `unix_permissions` keeps (the lowest
/// nine), and with the given bytes. After a failure nothing is known of what
/// the writer holds. Two inputs are left out: a writer on which a call has
/// failed, and a name of more than [`NAME_LIMIT`] bytes, on which the writer
/// panics where it puts the length into the header.
#[verifier::external_body]
fn add_entry(
    writer: &mut ArchiveWriter,
    entry: &Entry,
) -> (outcome: Result<(), zip::result::ZipError>)
    requires
        intact(*old(writer)),
        name_fits(entry@),
    ensures
        outcome is Ok <==> accepted(written(*old(writer)), kept(entry@)),
        outcome is Ok ==> written(*final(writer)) == written(*old(writer)).push(kept(entry@)),
        outcome is Ok ==> intact(*final(writer)),
{
    let method = match entry.compression {
        Compression::Stored => zip::CompressionMethod::Stored,
        Compression::Deflated => zip::CompressionMethod::Deflated,
    };
    let options = zip::write::SimpleFileOptions::default().compression_method(
        method,
    ).unix_permissions(entry.mode).last_modified_time(zip::DateTime::default());
    writer.inner.start_file(entry.name.as_str(), options)?;
    std::io::Write::write_all(&mut writer.inner, entry.data.as_slice())?;
    Ok(())
}

/// Closes the archive and hands out its bytes.
///
/// Calls `zip::ZipWriter::finish`, then `std::io::Cursor::into_inner`.
/// Trusted: the outcome depends on nothing but the entries that were added,
/// as `archive_image` names it. A writer on which a call has failed is left
/// out.
#[verifier::external_body]
fn finish_writer(writer: ArchiveWriter) -> (outcome: Result<
    Vec<u8>,
    zip::result::ZipError,
>)
    requires
        intact(writer),
    ensures
        outcome matches Ok(bytes) ==> archive_image(written(writer)) == Some(bytes@),
        outcome is Err ==> archive_image(written(writer)) is None,
{
    Ok(writer.inner.finish()?.into_inner())
}

/// The report of a failure inside the archive writer.
///
/// Formats a `zip::result::ZipError` with its `Display`. Nothing is stated of
/// the wording.
#[verifier::external_body]
fn failure_text(error: &zip::result::ZipError) -> (text: String) {
    format!("{}", error)
}

/// The entries as a writer keeps them.
pub open spec fn stored_entries(entries: Seq<EntryView>) -> Seq<EntryView> {
    Seq::new(entries.len(), |i: int| kept(entries[i]))
}

/// The writer takes the entry at `k` after the entries before it: its name
/// is short enough, and the writer accepts it.
pub open spec fn taken(entries: Seq<EntryView>, k: int) -> bool {
    name_fits(entries[k]) && accepted(entries.take(k), entries[k])
}

/// The bytes of the archive that holds `entries`, each as it was given;
/// `None` where a name is too long, where the writer refuses an entry, or
/// where it cannot finish.
pub open spec fn archive_of(entries: Seq<EntryView>) -> Option<Seq<u8>> {
    if forall|k: int| 0 <= k < entries.len() ==> #[trigger] taken(entries, k) {
        archive_image(entries)
    } else {
        None
    }
}

/// The entry at `k` is the first that is not taken, and its name is too
/// long.
pub open spec fn stops_at_long_name(entries: Seq<EntryView>, k: int) -> bool {
    &&& 0 <= k < entries.len()
    &&& forall|j: int| 0 <= j < k ==> #[trigger] taken(entries, j)
    &&& !name_fits(entries[k])
}

/// Mathematical value of a list of entries.
pub open spec fn entries_view(entries: &Vec<Entry>) -> Seq<EntryView> {
    Seq::new(entries.len() as nat, |i: int| entries[i]@)
}

/// Why an export failed. Each variant carries the underlying report.
#[derive(Debug)]
pub enum ExportError {
    /// A file could not be created, read or written.
    Io(String),
    /// The archive writer refused an entry or could not finish.
    Archive(String),
}

impl ExportError {
    /// The underlying report.
    pub open spec fn report(&self) -> Seq<char> {
        match self {
            ExportError::Io(report) => report@,
            ExportError::Archive(report) => report@,
        }
    }

    /// Renders the error for a reader: the underlying report, as it is.
    pub fn message(&self) -> (text: String)
        ensures
            text@ == self.report(),
    {
        match self {
            ExportError::Io(report) => report.clone(),
            ExportError::Archive(report) => report.clone(),
        }
    }
}

/// Builds the archive that holds `entries`, in their order.
///
/// An entry with a name of more than [`NAME_LIMIT`] bytes is refused with
/// [`LONG_NAME_TEXT`] before the writer sees it. Where the writer refuses an
/// entry or cannot finish, its report comes back.
pub fn build_archive(entries: &Vec<Entry>) -> (outcome: Result<Vec<u8>, ExportError>)
    ensures
        match outcome {
            Ok(bytes) => archive_of(stored_entries(entries_view(entries))) == Some(bytes@),
            Err(error) => archive_of(stored_entries(entries_view(entries))) is None
                && error is Archive,
        },
        forall|k: int| #[trigger]
            stops_at_long_name(stored_entries(entries_view(entries)), k) ==> (outcome matches Err(
                error,
            ) && error.report() == LONG_NAME_TEXT@),
{
    let ghost all = stored_entries(entries_view(entries));
    let mut writer = new_writer();
    let mut index: usize = 0;
    while index < entries.len()
        invariant
            index <= entries.len(),
            all == stored_entries(entries_view(entries)),
            intact(writer),
            written(writer) == all.take(index as int),
            forall|k: int| 0 <= k < index ==> #[trigger] taken(all, k),
        decreases entries.len() - index,
    {
        if entries[index].name.as_str().as_bytes().len() > NAME_LIMIT {
            assert(!taken(all, index as int));
            return Err(ExportError::Archive(String::from_str(LONG_NAME_TEXT)));
        }
        match add_entry(&mut writer, &entries[index]) {
            Ok(()) => {},
            Err(error) => {
                proof {
                    assert(!taken(all, index as int));
                    assert forall|k: int| !#[trigger] stops_at_long_name(all, k) by {
                        if 0 <= k < index {
                            assert(taken(all, k));
                        }
                    }
                }
                return Err(ExportError::Archive(failure_text(&error)));
            },
        }
        proof {
            assert(taken(all, index as int));
            assert(all.take(index as int + 1) =~= all.take(index as int).push(all[index as int]));
        }
        index = index + 1;
    }
    proof {
        assert(all.take(index as int) =~= all);
        assert forall|k: int| !#[trigger] stops_at_long_name(all, k) by {
            if 0 <= k < index {
                assert(taken(all, k));
            }
        }
    }
    match finish_writer(writer) {
        Ok(bytes) => Ok(bytes),
        Err(error) => Err(ExportError::Archive(failure_text(&error))),
    }
}

} // verus!
