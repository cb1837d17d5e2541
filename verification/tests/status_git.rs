//! The classification applied to status bit sets built with the real
//! backend's flag type.

use git2::Status;
use gitdash::git::status::StatusType;

#[test]
fn from_deleted() {
    let mut status: Status = Status::empty();

    status.insert(Status::WT_DELETED);
    assert!(status.is_wt_deleted());
    assert_eq!(StatusType::from(status.bits()), StatusType::Deleted);

    status.insert(Status::INDEX_DELETED);
    assert!(status.is_index_deleted());
    assert_eq!(StatusType::from(status.bits()), StatusType::Deleted);
}

#[test]
fn from_new() {
    let mut status: Status = Status::empty();

    status.insert(Status::WT_NEW);
    assert!(status.is_wt_new());
    assert_eq!(StatusType::from(status.bits()), StatusType::Added);

    status.insert(Status::INDEX_NEW);
    assert!(status.is_index_new());
    assert_eq!(StatusType::from(status.bits()), StatusType::Added);
}

#[test]
fn modified_entries_split_by_location() {
    let mut status: Status = Status::empty();

    status.insert(Status::WT_MODIFIED);
    assert!(status.is_wt_modified());
    assert_eq!(StatusType::from(status.bits()), StatusType::WtModified);

    status.insert(Status::INDEX_MODIFIED);
    assert!(status.is_index_modified());
    assert_eq!(StatusType::from(status.bits()), StatusType::IndexModified);
}
