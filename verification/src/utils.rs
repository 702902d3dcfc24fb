//! Paths relative to the workspace, the archive of changed files and the
//! request that replaces the remote sources.

use vstd::prelude::*;
use crate::errors::Errors;
use crate::sync::{EventKinds, Synchronization};
use crate::paths::{path_strip_prefix, strip_prefix};
use crate::tarball::{tar_accepts, tar_append, tar_builder_new, tar_bytes, tar_entries, tar_into_inner, Record};

verus! {

/// Pairs a path with what is left of it behind some base, or fails where the
/// path is not below the base.
pub fn stripped_entry(path: &str, rest: Result<String, std::path::StripPrefixError>) -> (res: Result<(String, String), Errors>)
    ensures
        match rest {
            Ok(name) => res matches Ok(pair) && pair.0@ == path@ && pair.1@ == name@,
            Err(_) => res == Err::<(String, String), Errors>(Errors::FailedStripPrefix),
        },
{
    match rest {
        Ok(name) => Ok((String::from_str(path), name)),
        Err(_) => Err(Errors::FailedStripPrefix),
    }
}

/// Strips the base path from the given path: the path itself and its name
/// relative to the base.
pub fn strip(base: &str, path: &str) -> (res: Result<(String, String), Errors>)
    ensures
        match path_strip_prefix(base@, path@) {
            Some(name) => res matches Ok(pair) && pair.0@ == path@ && pair.1@ == name,
            None => res == Err::<(String, String), Errors>(Errors::FailedStripPrefix),
        },
{
    stripped_entry(path, strip_prefix(base, path))
}

/// A file as it was read from the workspace, and the name it is stored under.
#[derive(Clone, Debug, PartialEq, Eq)]
pub struct ArchiveEntry {
    /// The absolute path the content was read from.
    pub path: String,
    /// The path relative to the workspace.
    pub name: String,
    /// The permission bits.
    pub mode: u32,
    /// The modification time, in seconds since the epoch.
    pub mtime: u64,
    /// The bytes of the file.
    pub content: Vec<u8>,
}

impl ArchiveEntry {
    /// The entry as the archive records it.
    pub open spec fn record(self) -> Record {
        (self.name@, self.mode, self.mtime, self.content@)
    }
}

/// The records of the entries, in the order of the entries.
pub open spec fn records(entries: Seq<ArchiveEntry>) -> Seq<Record> {
    Seq::new(entries.len(), |i: int| entries[i].record())
}

/// Whether the archive takes the names of the first `n` records.
pub open spec fn accepted_upto(records: Seq<Record>, n: int) -> bool {
    forall|i: int| 0 <= i < n ==> tar_accepts(#[trigger] records[i].0)
}

/// Whether the archive takes every name.
pub open spec fn all_accepted(records: Seq<Record>) -> bool {
    accepted_upto(records, records.len() as int)
}

/// Whether record `i` is the first whose name the archive refuses.
pub open spec fn refused_at(records: Seq<Record>, i: int) -> bool {
    0 <= i < records.len() && accepted_upto(records, i) && !tar_accepts(records[i].0)
}

/// Archives the entries into one tar byte stream, in their order. The first
/// name that the archive refuses fails the whole archive.
pub fn archive(entries: &Vec<ArchiveEntry>) -> (res: Result<Vec<u8>, Errors>)
    ensures
        res is Ok <==> all_accepted(records(entries@)),
        res matches Ok(bytes) ==> bytes@ == tar_bytes(records(entries@)),
        forall|i: int| #[trigger]
            refused_at(records(entries@), i) ==> (res matches Err(Errors::FailedAppendPath(name)) && name@
                == records(entries@)[i].0),
{
    let ghost all = records(entries@);
    let mut tar = tar_builder_new();
    let mut i: usize = 0;
    while i < entries.len()
        invariant
            0 <= i <= entries.len(),
            all == records(entries@),
            accepted_upto(all, i as int),
            tar_entries(tar) == all.take(i as int),
        decreases entries.len() - i,
    {
        let entry = &entries[i];
        assert(all[i as int] == entry.record());
        match tar_append(&mut tar, entry.name.as_str(), entry.mode, entry.mtime, &entry.content) {
            Ok(()) => {
                assert(all.take(i as int).push(entry.record()) =~= all.take(i + 1));
            },
            Err(_) => {
                assert(refused_at(all, i as int));
                assert forall|j: int| #[trigger] refused_at(all, j) implies j == i by {
                    if j < i {
                        assert(tar_accepts(all[j].0));
                    } else if j > i {
                        assert(tar_accepts(all[i as int].0));
                    }
                }
                return Err(Errors::FailedAppendPath(entry.name.clone()));
            },
        }
        i += 1;
    }
    assert(all.take(entries@.len() as int) =~= all);
    match tar_into_inner(tar) {
        Ok(bytes) => Ok(bytes),
        Err(_) => Err(Errors::FailedFinishTar),
    }
}

/// An entry of the workspace as it was found and read.
#[derive(Clone, Debug, PartialEq, Eq)]
pub struct SourceFile {
    /// The absolute path.
    pub path: String,
    /// Whether the entry is a directory. A directory has no content.
    pub is_dir: bool,
    /// The permission bits.
    pub mode: u32,
    /// The modification time, in seconds since the epoch.
    pub mtime: u64,
    /// The bytes of the file.
    pub content: Vec<u8>,
}

/// Whether the first `n` files lie below the base.
pub open spec fn strippable_upto(base: Seq<char>, files: Seq<SourceFile>, n: int) -> bool {
    forall|i: int| 0 <= i < n ==> path_strip_prefix(base, #[trigger] files[i].path@) is Some
}

/// Whether every file lies below the base.
pub open spec fn all_strippable(base: Seq<char>, files: Seq<SourceFile>) -> bool {
    strippable_upto(base, files, files.len() as int)
}

/// The records of the files, each under its name relative to the base.
pub open spec fn relative_records(base: Seq<char>, files: Seq<SourceFile>) -> Seq<Record> {
    Seq::new(
        files.len(),
        |i: int| (path_strip_prefix(base, files[i].path@)->Some_0, files[i].mode, files[i].mtime, files[i].content@),
    )
}

/// Names each file relative to the base, in order. Fails on the first file
/// that does not lie below the base.
pub fn relative_entries(base: &str, files: Vec<SourceFile>) -> (res: Result<Vec<ArchiveEntry>, Errors>)
    ensures
        res is Ok <==> all_strippable(base@, files@),
        res matches Ok(entries) ==> records(entries@) == relative_records(base@, files@) && entries@.len()
            == files@.len() && forall|i: int|
            0 <= i < files@.len() ==> (#[trigger] entries@[i]).path@ == files@[i].path@,
        res matches Err(e) ==> e == Errors::FailedStripPrefix,
{
    let ghost all = files@;
    let mut entries: Vec<ArchiveEntry> = Vec::new();
    for file in it: files
        invariant
            it.seq() == all,
            strippable_upto(base@, all, it.index() as int),
            entries@.len() == it.index(),
            records(entries@) == relative_records(base@, all).take(it.index() as int),
            forall|i: int| 0 <= i < it.index() ==> (#[trigger] entries@[i]).path@ == all[i].path@,
    {
        let ghost before = entries@;
        match strip(base, file.path.as_str()) {
            Ok(pair) => {
                let entry = ArchiveEntry { path: pair.0, name: pair.1, mode: file.mode, mtime: file.mtime, content: file.content };
                entries.push(entry);
                assert(records(entries@) =~= relative_records(base@, all).take(it.index() + 1)) by {
                    assert forall|i: int| 0 <= i < entries@.len() implies records(entries@)[i] == relative_records(base@, all).take(it.index() + 1)[i] by {
                        if i < before.len() {
                            assert(entries@[i] == before[i]);
                            assert(records(before)[i] == relative_records(base@, all).take(it.index() as int)[i]);
                        }
                    }
                }
            },
            Err(e) => {
                assert(!all_strippable(base@, all));
                return Err(e);
            },
        }
    }
    assert(relative_records(base@, all).take(all.len() as int) =~= relative_records(base@, all));
    Ok(entries)
}

/// The entries that are no directories, in their order.
pub open spec fn regular(files: Seq<SourceFile>) -> Seq<SourceFile>
    decreases files.len(),
{
    if files.len() == 0 {
        Seq::empty()
    } else if files.last().is_dir {
        regular(files.drop_last())
    } else {
        regular(files.drop_last()).push(files.last())
    }
}

/// Leaves the directories out.
pub fn regular_files(files: Vec<SourceFile>) -> (res: Vec<SourceFile>)
    ensures
        res@ == regular(files@),
{
    let ghost all = files@;
    let mut kept: Vec<SourceFile> = Vec::new();
    for file in it: files
        invariant
            it.seq() == all,
            kept@ == regular(all.take(it.index() as int)),
    {
        assert(all.take(it.index() + 1).drop_last() =~= all.take(it.index() as int));
        if !file.is_dir {
            kept.push(file);
        }
    }
    assert(all.take(all.len() as int) =~= all);
    kept
}

/// The bytes that a full upload of these entries carries.
pub open spec fn full_payload(workspace: Seq<char>, files: Seq<SourceFile>) -> Seq<u8> {
    tar_bytes(relative_records(workspace, regular(files)))
}

/// Archives every entry that is no directory under its path relative to
/// the workspace. A file outside the workspace fails the archive before any
/// name is looked at; after that the first name that the archive refuses.
pub fn archive_files(workspace: &str, files: Vec<SourceFile>) -> (res: Result<Vec<u8>, Errors>)
    ensures
        res is Ok <==> all_strippable(workspace@, regular(files@)) && all_accepted(
            relative_records(workspace@, regular(files@)),
        ),
        res matches Ok(bytes) ==> bytes@ == full_payload(workspace@, files@),
        !all_strippable(workspace@, regular(files@)) ==> res == Err::<Vec<u8>, Errors>(Errors::FailedStripPrefix),
        all_strippable(workspace@, regular(files@)) ==> forall|i: int| #[trigger]
            refused_at(relative_records(workspace@, regular(files@)), i) ==> (res matches Err(
                Errors::FailedAppendPath(name),
            ) && name@ == relative_records(workspace@, regular(files@))[i].0),
{
    let kept = regular_files(files);
    match relative_entries(workspace, kept) {
        Ok(entries) => archive(&entries),
        Err(e) => Err(e),
    }
}

/// Builds the request that replaces the remote sources with the given
/// entries of the workspace: every file that is no directory, archived under
/// its path relative to the workspace, and no list of paths. A workspace
/// without files gives the request with the empty archive.
pub fn upload(workspace: &str, files: Vec<SourceFile>) -> (res: Result<Synchronization, Errors>)
    ensures
        res is Ok <==> all_strippable(workspace@, regular(files@)) && all_accepted(
            relative_records(workspace@, regular(files@)),
        ),
        res matches Ok(req) ==> req.replaces_with(full_payload(workspace@, files@)) && req.well_formed(),
        !all_strippable(workspace@, regular(files@)) ==> res == Err::<Synchronization, Errors>(
            Errors::FailedStripPrefix,
        ),
        all_strippable(workspace@, regular(files@)) ==> forall|i: int| #[trigger]
            refused_at(relative_records(workspace@, regular(files@)), i) ==> (res matches Err(
                Errors::FailedAppendPath(name),
            ) && name@ == relative_records(workspace@, regular(files@))[i].0),
        regular(files@).len() == 0 ==> res is Ok,
{
    match archive_files(workspace, files) {
        Ok(payload) => Ok(
            Synchronization { kind: EventKinds::Overwrite, paths: Vec::new(), attributes: None, payload: Some(payload) },
        ),
        Err(e) => Err(e),
    }
}

/// Two full uploads of a workspace that did not change in between carry the
/// same archive, byte for byte and so of the same length, under the same
/// relative names.
pub proof fn lemma_upload_repeatable(workspace: Seq<char>, first: Seq<SourceFile>, second: Seq<SourceFile>)
    requires
        first.len() == second.len(),
        forall|i: int|
            0 <= i < first.len() ==> first[i].path@ == second[i].path@ && first[i].is_dir == second[i].is_dir
                && first[i].mode == second[i].mode && first[i].mtime == second[i].mtime && first[i].content@
                == second[i].content@,
    ensures
        relative_records(workspace, regular(first)) == relative_records(workspace, regular(second)),
        full_payload(workspace, first) == full_payload(workspace, second),
        full_payload(workspace, first).len() == full_payload(workspace, second).len(),
{
    lemma_regular_pointwise(first, second);
    let a = regular(first);
    let b = regular(second);
    assert(relative_records(workspace, a) =~= relative_records(workspace, b));
}

/// Entries that agree one by one leave files that agree one by one.
proof fn lemma_regular_pointwise(first: Seq<SourceFile>, second: Seq<SourceFile>)
    requires
        first.len() == second.len(),
        forall|i: int|
            0 <= i < first.len() ==> first[i].path@ == second[i].path@ && first[i].is_dir == second[i].is_dir
                && first[i].mode == second[i].mode && first[i].mtime == second[i].mtime && first[i].content@
                == second[i].content@,
    ensures
        regular(first).len() == regular(second).len(),
        forall|i: int|
            0 <= i < regular(first).len() ==> (#[trigger] regular(first)[i]).path@ == regular(second)[i].path@
                && regular(first)[i].mode == regular(second)[i].mode && regular(first)[i].mtime == regular(
                second,
            )[i].mtime && regular(first)[i].content@ == regular(second)[i].content@,
    decreases first.len(),
{
    if first.len() > 0 {
        lemma_regular_pointwise(first.drop_last(), second.drop_last());
    }
}

} // verus!
