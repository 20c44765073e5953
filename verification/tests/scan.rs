use disk_scan::child::ChildObservation;
use disk_scan::engine::{scan_directory, scan_fits, ScanEngine};
use disk_scan::entry::{EntryKind, EntryMetadata, FileSystemItem};
use disk_scan::event::{ScanError, ScanEvent, ScanProgress};

fn meta(kind: EntryKind, len: u64) -> Option<EntryMetadata> {
    Some(EntryMetadata { kind, len })
}

fn file_child(root: &str, name: &str, len: u64) -> ChildObservation {
    ChildObservation {
        path: format!("{}/{}", root, name),
        file_name: Some(name.to_string()),
        metadata: meta(EntryKind::File, len),
        subtree: vec![],
    }
}

fn dir_child(root: &str, name: &str, subtree: Vec<Option<EntryMetadata>>) -> ChildObservation {
    ChildObservation {
        path: format!("{}/{}", root, name),
        file_name: Some(name.to_string()),
        metadata: meta(EntryKind::Directory, 4096),
        subtree,
    }
}

fn unreadable_child(root: &str, name: &str) -> ChildObservation {
    ChildObservation {
        path: format!("{}/{}", root, name),
        file_name: Some(name.to_string()),
        metadata: None,
        subtree: vec![],
    }
}

fn item(path: &str, name: &str, size: u64, is_directory: bool) -> FileSystemItem {
    FileSystemItem { path: path.to_string(), name: name.to_string(), size, is_directory }
}

fn items_of(events: &[ScanEvent]) -> Vec<FileSystemItem> {
    let mut items = Vec::new();
    for event in events {
        if let ScanEvent::Discovered(found) = event {
            items.push(found.clone());
        }
    }
    items
}

fn snapshots_of(events: &[ScanEvent]) -> Vec<ScanProgress> {
    let mut snapshots = Vec::new();
    for event in events {
        if let ScanEvent::Progress(progress) = event {
            snapshots.push(progress.clone());
        }
    }
    snapshots
}

#[test]
fn scan_of_a_file_and_a_directory() {
    let children = vec![
        file_child("/tmp/x", "a.txt", 100),
        dir_child(
            "/tmp/x",
            "b",
            vec![meta(EntryKind::Directory, 4096), meta(EntryKind::File, 50)],
        ),
    ];
    let events = scan_directory("/tmp/x", true, &children).unwrap();
    assert_eq!(
        events,
        vec![
            ScanEvent::Discovered(item("/tmp/x/a.txt", "a.txt", 100, false)),
            ScanEvent::Discovered(item("/tmp/x/b", "b", 50, true)),
            ScanEvent::Progress(ScanProgress {
                current_path: "scan complete".to_string(),
                files_scanned: 2,
                total_size: 150,
                is_complete: true,
            }),
        ]
    );
}

#[test]
fn scan_of_a_missing_root_is_not_found() {
    let children = vec![file_child("/nowhere", "a.txt", 100)];
    assert_eq!(scan_directory("/nowhere", false, &children), Err(ScanError::NotFound));
    assert_eq!(scan_directory("/nowhere", false, &vec![]), Err(ScanError::NotFound));
    assert_eq!(ScanEngine::start("/nowhere".to_string(), false).err(), Some(ScanError::NotFound));
}

#[test]
fn scan_of_an_empty_directory_emits_the_terminal_snapshot_alone() {
    let events = scan_directory("/tmp/empty", true, &vec![]).unwrap();
    assert_eq!(
        events,
        vec![ScanEvent::Progress(ScanProgress {
            current_path: "scan complete".to_string(),
            files_scanned: 0,
            total_size: 0,
            is_complete: true,
        })]
    );
}

#[test]
fn scan_emits_one_item_per_child_in_listing_order() {
    let children = vec![
        file_child("/d", "z", 3),
        dir_child("/d", "m", vec![meta(EntryKind::File, 4), meta(EntryKind::File, 5)]),
        file_child("/d", "a", 0),
        dir_child("/d", "empty", vec![meta(EntryKind::Directory, 4096)]),
    ];
    let events = scan_directory("/d", true, &children).unwrap();
    assert_eq!(
        items_of(&events),
        vec![
            item("/d/z", "z", 3, false),
            item("/d/m", "m", 9, true),
            item("/d/a", "a", 0, false),
            item("/d/empty", "empty", 0, true),
        ]
    );
    let snapshots = snapshots_of(&events);
    assert_eq!(snapshots.len(), 1);
    assert!(snapshots[0].is_complete);
    assert_eq!(events.last(), Some(&ScanEvent::Progress(snapshots[0].clone())));
    assert_eq!(snapshots[0].files_scanned, 4);
    assert_eq!(snapshots[0].total_size, 12);
}

#[test]
fn sizes_of_the_items_add_up_to_the_bytes_under_the_root() {
    let children = vec![
        file_child("/d", "a", 1000),
        dir_child(
            "/d",
            "b",
            vec![
                meta(EntryKind::Directory, 4096),
                meta(EntryKind::File, 20),
                meta(EntryKind::Directory, 4096),
                meta(EntryKind::File, 300),
                None,
                meta(EntryKind::Other, 9),
            ],
        ),
        file_child("/d", "c", 1),
    ];
    let events = scan_directory("/d", true, &children).unwrap();
    let sum: u64 = items_of(&events).iter().map(|found| found.size).sum();
    assert_eq!(sum, 1321);
    match events.last() {
        Some(ScanEvent::Progress(last)) => assert_eq!(last.total_size, 1321),
        _ => panic!("the scan did not end with a snapshot"),
    }
    let again = scan_directory("/d", true, &children).unwrap();
    assert_eq!(events, again);
}

#[test]
fn child_with_unreadable_metadata_is_neither_emitted_nor_counted() {
    let children = vec![
        file_child("/d", "a", 5),
        unreadable_child("/d", "locked"),
        file_child("/d", "b", 6),
    ];
    let events = scan_directory("/d", true, &children).unwrap();
    assert_eq!(
        events,
        vec![
            ScanEvent::Discovered(item("/d/a", "a", 5, false)),
            ScanEvent::Discovered(item("/d/b", "b", 6, false)),
            ScanEvent::Progress(ScanProgress {
                current_path: "scan complete".to_string(),
                files_scanned: 2,
                total_size: 11,
                is_complete: true,
            }),
        ]
    );
}

#[test]
fn link_at_the_top_level_carries_its_own_length() {
    let children = vec![ChildObservation {
        path: "/d/link".to_string(),
        file_name: Some("link".to_string()),
        metadata: meta(EntryKind::Other, 17),
        subtree: vec![meta(EntryKind::File, 1000)],
    }];
    let events = scan_directory("/d", true, &children).unwrap();
    assert_eq!(items_of(&events), vec![item("/d/link", "link", 17, false)]);
}

#[test]
fn subtree_of_a_file_is_not_consulted() {
    let children = vec![ChildObservation {
        path: "/d/f".to_string(),
        file_name: Some("f".to_string()),
        metadata: meta(EntryKind::File, 8),
        subtree: vec![meta(EntryKind::File, 1000)],
    }];
    let events = scan_directory("/d", true, &children).unwrap();
    assert_eq!(items_of(&events), vec![item("/d/f", "f", 8, false)]);
}

#[test]
fn child_without_a_name_is_called_unknown() {
    let child = ChildObservation {
        path: "/d/..".to_string(),
        file_name: None,
        metadata: meta(EntryKind::Directory, 4096),
        subtree: vec![meta(EntryKind::File, 2)],
    };
    let events = scan_directory("/d", true, &vec![child]).unwrap();
    assert_eq!(items_of(&events), vec![item("/d/..", "Unknown", 2, true)]);
}

#[test]
fn snapshot_follows_every_twentieth_item() {
    let mut children = Vec::new();
    for i in 0..45u64 {
        children.push(file_child("/d", &format!("f{}", i), i));
    }
    let events = scan_directory("/d", true, &children).unwrap();
    assert_eq!(events.len(), 45 + 2 + 1);
    assert_eq!(items_of(&events).len(), 45);
    assert_eq!(
        snapshots_of(&events),
        vec![
            ScanProgress {
                current_path: "/d/f19".to_string(),
                files_scanned: 20,
                total_size: 190,
                is_complete: false,
            },
            ScanProgress {
                current_path: "/d/f39".to_string(),
                files_scanned: 40,
                total_size: 780,
                is_complete: false,
            },
            ScanProgress {
                current_path: "scan complete".to_string(),
                files_scanned: 45,
                total_size: 990,
                is_complete: true,
            },
        ]
    );
    assert_eq!(events[19], ScanEvent::Discovered(item("/d/f19", "f19", 19, false)));
    assert!(matches!(events[20], ScanEvent::Progress(_)));
    assert_eq!(events[21], ScanEvent::Discovered(item("/d/f20", "f20", 20, false)));
}

#[test]
fn unreadable_children_do_not_advance_the_snapshot_count() {
    let mut children = Vec::new();
    for i in 0..19u64 {
        children.push(file_child("/d", &format!("f{}", i), 1));
    }
    children.push(unreadable_child("/d", "locked"));
    let events = scan_directory("/d", true, &children).unwrap();
    assert_eq!(snapshots_of(&events).len(), 1);
    children.push(file_child("/d", "last", 1));
    let events = scan_directory("/d", true, &children).unwrap();
    let snapshots = snapshots_of(&events);
    assert_eq!(snapshots.len(), 2);
    assert_eq!(snapshots[0].current_path, "/d/last");
    assert_eq!(snapshots[0].files_scanned, 20);
}

#[test]
fn exactly_twenty_children_give_a_snapshot_and_the_terminal_one() {
    let mut children = Vec::new();
    for i in 0..20u64 {
        children.push(file_child("/d", &format!("f{}", i), 2));
    }
    let events = scan_directory("/d", true, &children).unwrap();
    let snapshots = snapshots_of(&events);
    assert_eq!(snapshots.len(), 2);
    assert!(!snapshots[0].is_complete);
    assert!(snapshots[1].is_complete);
    assert_eq!(snapshots[0].total_size, 40);
    assert_eq!(snapshots[1].total_size, 40);
}

#[test]
fn engine_steps_give_the_events_of_the_whole_scan() {
    let children = vec![
        file_child("/tmp/x", "a.txt", 100),
        unreadable_child("/tmp/x", "gone"),
        dir_child("/tmp/x", "b", vec![meta(EntryKind::File, 50)]),
    ];
    let mut engine = ScanEngine::start("/tmp/x".to_string(), true).unwrap();
    let mut events = Vec::new();
    for child in &children {
        assert!(engine.can_process(child));
        events.extend(engine.process_child(child));
    }
    events.push(ScanEvent::Progress(engine.finish().unwrap()));
    assert_eq!(events, scan_directory("/tmp/x", true, &children).unwrap());
}

#[test]
fn cancelling_halts_further_items_and_still_ends_the_scan_once() {
    let children = vec![
        file_child("/d", "a", 1),
        file_child("/d", "b", 2),
        file_child("/d", "c", 4),
        file_child("/d", "e", 8),
    ];
    let mut engine = ScanEngine::start("/d".to_string(), true).unwrap();
    assert!(!engine.is_cancelled());
    assert_eq!(engine.process_child(&children[0]).len(), 1);
    assert_eq!(engine.process_child(&children[1]).len(), 1);
    engine.cancel_scan();
    assert!(engine.is_cancelled());
    assert_eq!(engine.process_child(&children[2]), vec![]);
    assert_eq!(engine.process_child(&children[3]), vec![]);
    assert!(!engine.is_finished());
    assert_eq!(
        engine.finish(),
        Some(ScanProgress {
            current_path: "/d/b".to_string(),
            files_scanned: 2,
            total_size: 3,
            is_complete: true,
        })
    );
    assert!(engine.is_finished());
    assert_eq!(engine.finish(), None);
}

#[test]
fn cancelling_before_the_first_child_ends_at_the_root() {
    let mut engine = ScanEngine::start("/d".to_string(), true).unwrap();
    engine.cancel_scan();
    assert_eq!(engine.process_child(&file_child("/d", "a", 1)), vec![]);
    assert_eq!(
        engine.finish(),
        Some(ScanProgress {
            current_path: "/d".to_string(),
            files_scanned: 0,
            total_size: 0,
            is_complete: true,
        })
    );
}

#[test]
fn cancelling_does_not_take_back_what_was_emitted() {
    let mut engine = ScanEngine::start("/d".to_string(), true).unwrap();
    let first = engine.process_child(&file_child("/d", "a", 9));
    engine.cancel_scan();
    engine.cancel_scan();
    assert_eq!(first, vec![ScanEvent::Discovered(item("/d/a", "a", 9, false))]);
    assert_eq!(
        engine.progress(),
        ScanProgress {
            current_path: "/d/a".to_string(),
            files_scanned: 1,
            total_size: 9,
            is_complete: false,
        }
    );
}

#[test]
fn finished_scan_passes_over_every_child() {
    let mut engine = ScanEngine::start("/d".to_string(), true).unwrap();
    let last = engine.finish().unwrap();
    assert!(last.is_complete);
    assert_eq!(last.current_path, "scan complete");
    assert_eq!(engine.process_child(&file_child("/d", "a", 1)), vec![]);
    assert_eq!(engine.progress().files_scanned, 0);
    assert_eq!(engine.finish(), None);
}

#[test]
fn progress_never_decreases() {
    let children = vec![
        file_child("/d", "a", 5),
        unreadable_child("/d", "x"),
        file_child("/d", "b", 0),
        dir_child("/d", "c", vec![meta(EntryKind::File, 7)]),
    ];
    let mut engine = ScanEngine::start("/d".to_string(), true).unwrap();
    let mut before = engine.progress();
    for child in &children {
        engine.process_child(child);
        let now = engine.progress();
        assert!(now.files_scanned >= before.files_scanned);
        assert!(now.total_size >= before.total_size);
        before = now;
    }
    assert_eq!(before.files_scanned, 3);
    assert_eq!(before.total_size, 12);
}

#[test]
fn engine_refuses_a_child_that_would_overflow_the_total() {
    let mut engine = ScanEngine::start("/d".to_string(), true).unwrap();
    let big = file_child("/d", "big", u64::MAX);
    assert!(engine.can_process(&big));
    engine.process_child(&big);
    assert!(!engine.can_process(&file_child("/d", "one", 1)));
    assert!(engine.can_process(&file_child("/d", "zero", 0)));
    assert!(engine.can_process(&unreadable_child("/d", "x")));
    let heavy = dir_child(
        "/d",
        "heavy",
        vec![meta(EntryKind::File, u64::MAX), meta(EntryKind::File, 1)],
    );
    assert!(!ScanEngine::start("/d".to_string(), true).unwrap().can_process(&heavy));
    engine.cancel_scan();
    assert!(engine.can_process(&file_child("/d", "one", 1)));
}

#[test]
fn scan_fits_tells_whether_the_counters_hold() {
    let small = vec![file_child("/d", "a", 1), file_child("/d", "b", 2)];
    assert!(scan_fits("/d", &small));
    assert!(scan_fits("/d", &vec![]));
    let large = vec![
        file_child("/d", "a", u64::MAX),
        unreadable_child("/d", "x"),
        file_child("/d", "b", 1),
    ];
    assert!(!scan_fits("/d", &large));
    let edge = vec![file_child("/d", "a", u64::MAX - 1), file_child("/d", "b", 1)];
    assert!(scan_fits("/d", &edge));
    assert_eq!(
        snapshots_of(&scan_directory("/d", true, &edge).unwrap())[0].total_size,
        u64::MAX
    );
}
