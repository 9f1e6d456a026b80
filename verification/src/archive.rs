//! Splitting a story into one archive, with one entry for each group.

use vstd::prelude::*;
use vstd::string::*;
use indexmap::IndexMap;
use std::io::Cursor;
use std::io::Write;
use zip::result::ZipError;
use zip::write::SimpleFileOptions;
use zip::CompressionMethod;
use zip::ZipWriter;
use crate::export::{
    names_requested, split_result, SplitGroup, SplitGroupView, SplitResult, ZipPlan,
};
use crate::passage::{Passage, PassageView};
use crate::serialize::{group_text, group_to_twee};
use crate::story::passage_map;

verus! {

/// The most bytes that one entry of an archive takes. It lies far enough
/// below 4 GiB that the stored form of an entry stays below 4 GiB too,
/// also where deflating makes the data longer: beyond that the archive
/// would need its large-file format, which is not used here.
pub const MAX_ENTRY_DATA: usize = 0xFF00_0000;

/// An archive under construction in memory: a `zip::ZipWriter` over a
/// buffer of bytes. Nothing of it is visible to proofs but its entries,
/// and those only as far as the functions below say. An archive is made
/// and filled by the functions of this file alone, which give no entry
/// more than [`MAX_ENTRY_DATA`] bytes.
#[verifier::external_body]
pub struct Archive {
    writer: ZipWriter<Cursor<Vec<u8>>>,
}

/// `zip::result::ZipError`, the error of the archive's own steps, carried
/// through unread.
#[verifier::external_type_specification]
#[verifier::external_body]
pub struct ExZipError(ZipError);

/// `std::io::Error`, the error of a write into an entry, carried through
/// unread.
#[verifier::external_type_specification]
#[verifier::external_body]
pub struct ExIoError(std::io::Error);

/// How an entry's data is stored in an archive.
#[derive(Clone, Copy, Debug, PartialEq, Eq)]
pub enum Compression {
    Stored,
    Deflated,
}

/// One entry of an archive: its name, how it is stored, and the data that
/// a reader gets from it.
pub ghost struct ArchiveEntry {
    pub name: Seq<char>,
    pub method: Compression,
    pub data: Seq<u8>,
}

/// The entries of an archive under construction, in the order in which
/// they were started.
pub uninterp spec fn archive_entries(archive: Archive) -> Seq<ArchiveEntry>;

/// Whether an archive takes a new entry of the given name and method as
/// its next.
pub uninterp spec fn start_accepted(archive: Archive, name: Seq<char>, method: Compression) -> bool;

/// Whether an archive takes `data` into the entry that is open in it.
pub uninterp spec fn write_accepted(archive: Archive, data: Seq<u8>) -> bool;

/// What sealing an archive gives: the bytes of the whole archive, or
/// `None` where the archive cannot be sealed.
pub uninterp spec fn sealed_bytes(archive: Archive) -> Option<Seq<u8>>;

/// The entry of the given name and method that holds no data yet.
pub open spec fn empty_entry(name: Seq<char>, method: Compression) -> ArchiveEntry {
    ArchiveEntry { name, method, data: Seq::empty() }
}

/// Some archive that holds exactly `entries` does not take an entry of the
/// given name and method as its next.
pub open spec fn start_refused(
    entries: Seq<ArchiveEntry>,
    name: Seq<char>,
    method: Compression,
) -> bool {
    exists|archive: Archive|
        #[trigger] archive_entries(archive) == entries && !start_accepted(archive, name, method)
}

/// Some archive that holds exactly `entries` does not take `data` into the
/// entry that is open in it.
pub open spec fn data_refused(entries: Seq<ArchiveEntry>, data: Seq<u8>) -> bool {
    exists|archive: Archive|
        #[trigger] archive_entries(archive) == entries && !write_accepted(archive, data)
}

/// Some archive that holds exactly `entries` does not take `entry` after
/// them: it refuses to start it, or, once it is started, to take its data.
pub open spec fn entry_refused(entries: Seq<ArchiveEntry>, entry: ArchiveEntry) -> bool {
    start_refused(entries, entry.name, entry.method) || data_refused(
        entries.push(empty_entry(entry.name, entry.method)),
        entry.data,
    )
}

/// The message for an entry that is larger than an archive takes.
pub open spec fn too_large_text() -> Seq<char> {
    "entry is too large for the archive"@
}

/// Some archive that holds exactly `entries` cannot be sealed.
pub open spec fn sealing_refused(entries: Seq<ArchiveEntry>) -> bool {
    exists|archive: Archive|
        #[trigger] archive_entries(archive) == entries && sealed_bytes(archive) is None
}

/// `entries` with `data` added at the end of the last entry.
pub open spec fn with_more_data(entries: Seq<ArchiveEntry>, data: Seq<u8>) -> Seq<ArchiveEntry> {
    entries.drop_last().push(
        ArchiveEntry {
            name: entries.last().name,
            method: entries.last().method,
            data: entries.last().data + data,
        },
    )
}

/// `ZipWriter::new` on an empty buffer in memory: an archive without
/// entries.
#[verifier::external_body]
pub(crate) fn archive_new() -> (archive: Archive)
    ensures
        archive_entries(archive) == Seq::<ArchiveEntry>::empty(),
{
    Archive { writer: ZipWriter::new(Cursor::new(Vec::new())) }
}

/// `ZipWriter::start_file`, with the options of
/// `SimpleFileOptions::default` and the method set by
/// `FileOptions::compression_method`: whether it succeeds depends on
/// nothing but the archive, the name and the method; where it succeeds,
/// the archive has one more entry, last, of the given name and method and
/// without data yet, and the entries before it are as they were.
#[verifier::external_body]
pub(crate) fn archive_start_file(
    archive: &mut Archive,
    name: &str,
    method: Compression,
) -> (started: Result<(), ZipError>)
    ensures
        started is Ok <==> start_accepted(*old(archive), name@, method),
        started is Ok ==> archive_entries(*final(archive)) == archive_entries(*old(archive)).push(
            empty_entry(name@, method),
        ),
{
    let method = match method {
        Compression::Stored => CompressionMethod::Stored,
        Compression::Deflated => CompressionMethod::Deflated,
    };
    archive.writer.start_file(name, SimpleFileOptions::default().compression_method(method))
}

/// `Write::write_all` on a `ZipWriter`, for data that leaves the last
/// entry within [`MAX_ENTRY_DATA`]: whether it succeeds depends on nothing
/// but the archive and the data; where it succeeds, `data` has been added
/// to the last entry.
#[verifier::external_body]
pub(crate) fn archive_write(archive: &mut Archive, data: &[u8]) -> (written: Result<
    (),
    std::io::Error,
>)
    requires
        archive_entries(*old(archive)).len() > 0,
        archive_entries(*old(archive)).last().data.len() + data@.len() <= MAX_ENTRY_DATA,
    ensures
        written is Ok <==> write_accepted(*old(archive), data@),
        written is Ok ==> archive_entries(*final(archive)) == with_more_data(
            archive_entries(*old(archive)),
            data@,
        ),
{
    archive.writer.write_all(data)
}

/// `ZipWriter::finish`, and the buffer that it hands back: whether it
/// succeeds, and the bytes of the sealed archive where it does, depend on
/// nothing but the archive as it stood.
#[verifier::external_body]
pub(crate) fn archive_finish(archive: Archive) -> (sealed: Result<Vec<u8>, ZipError>)
    ensures
        match sealed {
            Ok(bytes) => sealed_bytes(archive) == Some(bytes@),
            Err(_) => sealed_bytes(archive) is None,
        },
{
    archive.writer.finish().map(Cursor::into_inner)
}

/// An archive in memory without entries.
pub fn new_archive() -> (archive: Archive)
    ensures
        archive_entries(archive) == Seq::<ArchiveEntry>::empty(),
{
    archive_new()
}

/// Seals an archive: writes its directory and hands back the bytes of the
/// whole archive. It fails exactly where the archive cannot be sealed, with
/// the archive's message.
pub fn seal_archive(archive: Archive) -> (sealed: Result<Vec<u8>, String>)
    ensures
        match sealed {
            Ok(bytes) => sealed_bytes(archive) == Some(bytes@),
            Err(_) => sealed_bytes(archive) is None,
        },
{
    match archive_finish(archive) {
        Ok(bytes) => Ok(bytes),
        Err(error) => Err(error.to_string()),
    }
}

/// Adds an entry to `archive`: starts it under `name`, stored as `method`
/// says, and fills it with `data`. Data of more than [`MAX_ENTRY_DATA`]
/// bytes is refused before anything is started, and the archive stays as
/// it was. After that the first step that the archive refuses ends the
/// work, with the archive's message; nothing else makes it fail.
pub fn add_entry(archive: &mut Archive, name: &str, method: Compression, data: &[u8]) -> (done:
    Result<(), String>)
    ensures
        done is Ok ==> archive_entries(*final(archive)) == archive_entries(*old(archive)).push(
            ArchiveEntry { name: name@, method, data: data@ },
        ),
        data@.len() > MAX_ENTRY_DATA ==> done is Err && done->Err_0@ == too_large_text()
            && *final(archive) == *old(archive),
        !start_accepted(*old(archive), name@, method) ==> done is Err,
        done is Err ==> data@.len() > MAX_ENTRY_DATA || !start_accepted(
            *old(archive),
            name@,
            method,
        ) || data_refused(archive_entries(*old(archive)).push(empty_entry(name@, method)), data@),
{
    if data.len() > MAX_ENTRY_DATA {
        return Err(String::from_str("entry is too large for the archive"));
    }
    match archive_start_file(archive, name, method) {
        Ok(_) => {},
        Err(error) => {
            return Err(error.to_string());
        },
    }
    let ghost started = *archive;
    match archive_write(archive, data) {
        Ok(_) => {},
        Err(error) => {
            proof {
                assert(archive_entries(started) == archive_entries(*old(archive)).push(
                    empty_entry(name@, method),
                ));
                assert(!write_accepted(started, data@));
            }
            return Err(error.to_string());
        },
    }
    assert(archive_entries(*archive) =~= archive_entries(*old(archive)).push(
        ArchiveEntry { name: name@, method, data: data@ },
    ));
    Ok(())
}

/// The entry that a group becomes: named as the group says, deflated,
/// holding the group's text in UTF-8.
pub open spec fn group_entry(
    group: SplitGroupView,
    passages: Map<Seq<char>, PassageView>,
) -> ArchiveEntry {
    ArchiveEntry {
        name: group.filename,
        method: Compression::Deflated,
        data: vstd::utf8::encode_utf8(group_text(group.passage_names, passages)),
    }
}

/// The entries that the groups become, one for each group and in their
/// order.
pub open spec fn group_entries(
    groups: Seq<SplitGroupView>,
    passages: Map<Seq<char>, PassageView>,
) -> Seq<ArchiveEntry> {
    groups.map_values(|group: SplitGroupView| group_entry(group, passages))
}

/// The entry of one of the groups is larger than an archive takes.
pub open spec fn group_too_large(
    groups: Seq<SplitGroupView>,
    passages: Map<Seq<char>, PassageView>,
) -> bool {
    exists|i: int|
        0 <= i < groups.len() && (#[trigger] group_entry(groups[i], passages)).data.len()
            > MAX_ENTRY_DATA
}

/// The entries of a split are as many as its groups, in the groups'
/// order; each is named as its group says, is deflated, and holds the
/// group's text in UTF-8.
pub proof fn group_entries_are_one_per_group(
    groups: Seq<SplitGroupView>,
    passages: Map<Seq<char>, PassageView>,
)
    ensures
        group_entries(groups, passages).len() == groups.len(),
        forall|i: int|
            0 <= i < groups.len() ==> {
                let entry = #[trigger] group_entries(groups, passages)[i];
                &&& entry.name == groups[i].filename
                &&& entry.method == Compression::Deflated
                &&& entry.data == vstd::utf8::encode_utf8(
                    group_text(groups[i].passage_names, passages),
                )
            },
{
}

/// Some archive refuses the entry of one of the groups, when it holds
/// `held` and the entries of the groups before that one.
pub open spec fn group_refused(
    held: Seq<ArchiveEntry>,
    groups: Seq<SplitGroupView>,
    passages: Map<Seq<char>, PassageView>,
) -> bool {
    exists|i: int|
        0 <= i < groups.len() && entry_refused(
            held + #[trigger] group_entries(groups.take(i), passages),
            group_entry(groups[i], passages),
        )
}

/// Adds one entry for each group to `archive`, in the order of the groups:
/// each is started, filled with the group's text and left when the next is
/// started. The first group whose text is larger than an entry takes, and
/// the first step that the archive refuses, end the work with a message;
/// nothing else makes it fail.
pub fn write_groups(
    archive: &mut Archive,
    groups: &Vec<SplitGroup>,
    passages: &IndexMap<String, Passage>,
) -> (done: Result<(), String>)
    ensures
        done is Ok ==> archive_entries(*final(archive)) == archive_entries(*old(archive))
            + group_entries(groups.deep_view(), passage_map(*passages)),
        groups.len() == 0 ==> done is Ok,
        group_too_large(groups.deep_view(), passage_map(*passages)) ==> done is Err,
        done is Err ==> group_too_large(groups.deep_view(), passage_map(*passages))
            || group_refused(
                archive_entries(*old(archive)),
                groups.deep_view(),
                passage_map(*passages),
            ),
{
    let ghost all = groups.deep_view();
    let ghost start = archive_entries(*archive);
    let mut i: usize = 0;
    while i < groups.len()
        invariant
            i <= groups.len(),
            all == groups.deep_view(),
            start == archive_entries(*old(archive)),
            forall|k: int|
                0 <= k < i ==> (#[trigger] group_entry(all[k], passage_map(*passages))).data.len()
                    <= MAX_ENTRY_DATA,
            archive_entries(*archive) == start + group_entries(
                all.take(i as int),
                passage_map(*passages),
            ),
        decreases groups.len() - i,
    {
        let group = &groups[i];
        let content = group_to_twee(group.passage_names.as_slice(), passages);
        let ghost held = *archive;
        match add_entry(
            archive,
            group.filename.as_str(),
            Compression::Deflated,
            content.as_str().as_bytes(),
        ) {
            Ok(_) => {},
            Err(message) => {
                proof {
                    let entry = group_entry(group@, passage_map(*passages));
                    let before = start + group_entries(all.take(i as int), passage_map(*passages));
                    assert(all[i as int] == group@);
                    assert(archive_entries(held) == before);
                    assert(entry.data == vstd::utf8::encode_utf8(content@));
                    if entry.data.len() > MAX_ENTRY_DATA {
                        assert(group_too_large(all, passage_map(*passages)));
                    } else {
                        if !start_accepted(held, entry.name, entry.method) {
                            assert(start_refused(before, entry.name, entry.method));
                        }
                        assert(entry_refused(before, entry));
                        assert(group_refused(start, all, passage_map(*passages)));
                    }
                }
                return Err(message);
            },
        }
        proof {
            let before = group_entries(all.take(i as int), passage_map(*passages));
            let after = group_entries(all.take(i + 1), passage_map(*passages));
            assert(group_entry(all[i as int], passage_map(*passages)).data
                == vstd::utf8::encode_utf8(content@));
            assert(all.take(i + 1).drop_last() == all.take(i as int));
            assert(all.take(i + 1).last() == group@);
            assert(after =~= before.push(group_entry(group@, passage_map(*passages))));
            assert(archive_entries(*archive) =~= start + after);
        }
        i += 1;
    }
    proof {
        assert(all.take(i as int) == all);
    }
    Ok(())
}

/// What a split into an archive yields: the bytes of the sealed archive,
/// and the counts to report.
#[derive(Clone, Debug)]
pub struct ZipExport {
    pub bytes: Vec<u8>,
    pub result: SplitResult,
}

/// Splits a story into one archive: a deflated entry for each group of the
/// plan, in the plan's order, each holding the group's text; then the
/// archive is sealed. Names that the story lacks are passed over in the
/// text and still counted in `total_passages`. Where a group's text is
/// larger than an entry takes, or the archive refuses an entry or the
/// sealing, the split ends with a message; nothing else makes it fail.
pub fn execute_split_zip(plan: &ZipPlan, passages: &IndexMap<String, Passage>) -> (export: Result<
    ZipExport,
    String,
>)
    requires
        names_requested(plan.groups.deep_view()) <= usize::MAX,
    ensures
        export is Ok ==> exists|archive: Archive|
            archive_entries(archive) == group_entries(
                plan.groups.deep_view(),
                passage_map(*passages),
            ) && #[trigger] sealed_bytes(archive) == Some(export->Ok_0.bytes@),
        group_too_large(plan.groups.deep_view(), passage_map(*passages)) ==> export is Err,
        export is Err ==> group_too_large(plan.groups.deep_view(), passage_map(*passages))
            || group_refused(Seq::empty(), plan.groups.deep_view(), passage_map(*passages))
            || sealing_refused(group_entries(plan.groups.deep_view(), passage_map(*passages))),
        export is Ok ==> export->Ok_0.result.files_written == plan.groups.len(),
        export is Ok ==> export->Ok_0.result.total_passages == names_requested(
            plan.groups.deep_view(),
        ),
{
    let mut archive = new_archive();
    match write_groups(&mut archive, &plan.groups, passages) {
        Ok(_) => {},
        Err(message) => {
            return Err(message);
        },
    }
    let ghost filled = archive;
    assert(archive_entries(filled) =~= group_entries(
        plan.groups.deep_view(),
        passage_map(*passages),
    ));
    match seal_archive(archive) {
        Ok(bytes) => Ok(ZipExport { bytes, result: split_result(&plan.groups) }),
        Err(message) => {
            assert(sealed_bytes(filled) is None);
            Err(message)
        },
    }
}

} // verus!
