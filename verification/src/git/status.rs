//! Classification of working-tree entries from the status bits the backend
//! reports (the `git_status_t` bit set of libgit2).

use vstd::prelude::*;

verus! {

pub const INDEX_NEW: u32 = 1;

pub const INDEX_MODIFIED: u32 = 2;

pub const INDEX_DELETED: u32 = 4;

pub const INDEX_RENAMED: u32 = 8;

pub const INDEX_TYPECHANGE: u32 = 16;

pub const WT_NEW: u32 = 128;

pub const WT_MODIFIED: u32 = 256;

pub const WT_DELETED: u32 = 512;

pub const WT_TYPECHANGE: u32 = 1024;

pub const WT_RENAMED: u32 = 2048;

pub const CONFLICTED: u32 = 32768;

#[derive(Clone, Debug, PartialEq)]
pub enum StatusType {
    Added,
    Deleted,
    IndexModified,
    WtModified,
    Renamed,
    Typechanged,
    Conflicted,
    Unmodified,
}

#[derive(Clone, Debug, PartialEq)]
pub enum StatusLoc {
    Clean,
    Index,
    WorkingDirectory,
    WorkingDirectoryAndIndex,
}

/// One entry of the working-tree status list.
#[derive(Clone, Debug, PartialEq)]
pub struct FileStatus {
    pub path: String,
    pub status_type: StatusType,
    pub status_loc: StatusLoc,
}

/// A status entry as the backend reports it: the path and the raw bit set.
#[derive(Clone, Debug, PartialEq)]
pub struct RawStatus {
    pub path: String,
    pub bits: u32,
}

pub open spec fn has_bit(bits: u32, flag: u32) -> bool {
    bits & flag != 0
}

/// How a raw bit set is classified, ordered as the screen reports it:
/// additions and deletions win over renames and type changes, conflicts over
/// plain modifications, and an index modification over a working-tree one.
pub open spec fn spec_status_type(bits: u32) -> StatusType {
    if has_bit(bits, WT_NEW) || has_bit(bits, INDEX_NEW) {
        StatusType::Added
    } else if has_bit(bits, WT_DELETED) || has_bit(bits, INDEX_DELETED) {
        StatusType::Deleted
    } else if has_bit(bits, WT_RENAMED) || has_bit(bits, INDEX_RENAMED) {
        StatusType::Renamed
    } else if has_bit(bits, WT_TYPECHANGE) || has_bit(bits, INDEX_TYPECHANGE) {
        StatusType::Typechanged
    } else if has_bit(bits, CONFLICTED) {
        StatusType::Conflicted
    } else if has_bit(bits, INDEX_MODIFIED) {
        StatusType::IndexModified
    } else {
        StatusType::WtModified
    }
}

/// Where a change lives: bits below the working-tree range mean the index;
/// the exact combination of an index and a working-tree modification means
/// both; anything else means the working tree.
pub open spec fn spec_status_loc(bits: u32) -> StatusLoc {
    if bits < 128 {
        StatusLoc::Index
    } else if bits == 258 {
        StatusLoc::WorkingDirectoryAndIndex
    } else {
        StatusLoc::WorkingDirectory
    }
}

impl From<u32> for StatusType {
    fn from(status: u32) -> (t: StatusType) {
        if status & WT_NEW != 0 || status & INDEX_NEW != 0 {
            StatusType::Added
        } else if status & WT_DELETED != 0 || status & INDEX_DELETED != 0 {
            StatusType::Deleted
        } else if status & WT_RENAMED != 0 || status & INDEX_RENAMED != 0 {
            StatusType::Renamed
        } else if status & WT_TYPECHANGE != 0 || status & INDEX_TYPECHANGE != 0 {
            StatusType::Typechanged
        } else if status & CONFLICTED != 0 {
            StatusType::Conflicted
        } else if status & INDEX_MODIFIED != 0 {
            StatusType::IndexModified
        } else {
            StatusType::WtModified
        }
    }
}

impl vstd::std_specs::convert::FromSpecImpl<u32> for StatusType {
    open spec fn obeys_from_spec() -> bool {
        true
    }

    open spec fn from_spec(bits: u32) -> Self {
        spec_status_type(bits)
    }
}

impl From<u32> for StatusLoc {
    fn from(status: u32) -> (l: StatusLoc) {
        if status < 128 {
            StatusLoc::Index
        } else if status == 258 {
            StatusLoc::WorkingDirectoryAndIndex
        } else {
            StatusLoc::WorkingDirectory
        }
    }
}

impl vstd::std_specs::convert::FromSpecImpl<u32> for StatusLoc {
    open spec fn obeys_from_spec() -> bool {
        true
    }

    open spec fn from_spec(bits: u32) -> Self {
        spec_status_loc(bits)
    }
}

/// The one-letter tag a status entry is drawn with.
pub open spec fn spec_status_char(t: StatusType) -> char {
    match t {
        StatusType::Added => 'A',
        StatusType::Deleted => 'D',
        StatusType::IndexModified => 'M',
        StatusType::WtModified => 'M',
        StatusType::Renamed => 'R',
        StatusType::Typechanged => 'T',
        StatusType::Conflicted => 'C',
        StatusType::Unmodified => ' ',
    }
}

impl From<StatusType> for char {
    fn from(status_type: StatusType) -> (c: char) {
        match status_type {
            StatusType::Added => 'A',
            StatusType::Deleted => 'D',
            StatusType::IndexModified | StatusType::WtModified => 'M',
            StatusType::Renamed => 'R',
            StatusType::Typechanged => 'T',
            StatusType::Conflicted => 'C',
            StatusType::Unmodified => ' ',
        }
    }
}

impl vstd::std_specs::convert::FromSpecImpl<StatusType> for char {
    open spec fn obeys_from_spec() -> bool {
        true
    }

    open spec fn from_spec(t: StatusType) -> Self {
        spec_status_char(t)
    }
}

/// The classification of one raw entry.
pub open spec fn spec_file_status(e: RawStatus) -> FileStatus {
    FileStatus {
        path: e.path,
        status_type: spec_status_type(e.bits),
        status_loc: spec_status_loc(e.bits),
    }
}

/// Classify every raw entry the backend reported, in order.
pub fn get_file_status(entries: &Vec<RawStatus>) -> (files: Vec<FileStatus>)
    ensures
        files@ == entries@.map_values(|e: RawStatus| spec_file_status(e)),
{
    let mut files: Vec<FileStatus> = Vec::new();
    let mut idx: usize = 0;
    proof {
        assert(entries@.take(0).map_values(|e: RawStatus| spec_file_status(e))
            =~= Seq::<FileStatus>::empty());
    }
    while idx < entries.len()
        invariant
            0 <= idx <= entries@.len(),
            files@ == entries@.take(idx as int).map_values(|e: RawStatus| spec_file_status(e)),
        decreases entries@.len() - idx,
    {
        let entry = &entries[idx];
        let path = entry.path.clone();
        let status_type = StatusType::from(entry.bits);
        let status_loc = StatusLoc::from(entry.bits);
        files.push(FileStatus { path, status_type, status_loc });
        proof {
            assert(entries@.take(idx + 1 as int).map_values(|e: RawStatus| spec_file_status(e))
                =~= entries@.take(idx as int).map_values(|e: RawStatus| spec_file_status(e)).push(
                spec_file_status(entries@[idx as int]),
            ));
        }
        idx = idx + 1;
    }
    proof {
        assert(entries@.take(entries@.len() as int) =~= entries@);
    }
    files
}

} // verus!
