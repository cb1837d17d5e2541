use gitdash::git::status::{get_file_status, FileStatus, RawStatus, StatusLoc, StatusType};

#[test]
fn classification_covers_every_kind_of_change() {
    assert_eq!(StatusType::from(128), StatusType::Added);
    assert_eq!(StatusType::from(1), StatusType::Added);
    assert_eq!(StatusType::from(512), StatusType::Deleted);
    assert_eq!(StatusType::from(4), StatusType::Deleted);
    assert_eq!(StatusType::from(2048), StatusType::Renamed);
    assert_eq!(StatusType::from(8), StatusType::Renamed);
    assert_eq!(StatusType::from(1024), StatusType::Typechanged);
    assert_eq!(StatusType::from(16), StatusType::Typechanged);
    assert_eq!(StatusType::from(32768), StatusType::Conflicted);
    assert_eq!(StatusType::from(2), StatusType::IndexModified);
    assert_eq!(StatusType::from(256), StatusType::WtModified);
}

#[test]
fn additions_and_deletions_win_over_modifications() {
    assert_eq!(StatusType::from(128 | 2), StatusType::Added);
    assert_eq!(StatusType::from(512 | 256), StatusType::Deleted);
}

#[test]
fn change_location_follows_the_bit_ranges() {
    assert_eq!(StatusLoc::from(2), StatusLoc::Index);
    assert_eq!(StatusLoc::from(4), StatusLoc::Index);
    assert_eq!(StatusLoc::from(258), StatusLoc::WorkingDirectoryAndIndex);
    assert_eq!(StatusLoc::from(256), StatusLoc::WorkingDirectory);
    assert_eq!(StatusLoc::from(128), StatusLoc::WorkingDirectory);
}

#[test]
fn status_tags_render_one_letter() {
    assert_eq!(char::from(StatusType::Added), 'A');
    assert_eq!(char::from(StatusType::Deleted), 'D');
    assert_eq!(char::from(StatusType::IndexModified), 'M');
    assert_eq!(char::from(StatusType::WtModified), 'M');
    assert_eq!(char::from(StatusType::Renamed), 'R');
    assert_eq!(char::from(StatusType::Typechanged), 'T');
    assert_eq!(char::from(StatusType::Conflicted), 'C');
    assert_eq!(char::from(StatusType::Unmodified), ' ');
}

#[test]
fn raw_entries_become_classified_entries_in_order() {
    let entries = vec![
        RawStatus {
            path: "new.rs".to_string(),
            bits: 128,
        },
        RawStatus {
            path: "edited.rs".to_string(),
            bits: 256,
        },
    ];
    let files = get_file_status(&entries);
    assert_eq!(
        files,
        vec![
            FileStatus {
                path: "new.rs".to_string(),
                status_type: StatusType::Added,
                status_loc: StatusLoc::WorkingDirectory,
            },
            FileStatus {
                path: "edited.rs".to_string(),
                status_type: StatusType::WtModified,
                status_loc: StatusLoc::WorkingDirectory,
            },
        ]
    );
}
