use notify_inotify::backend::Backend;
use notify_inotify::buffer::{Pull, StreamError};
use notify_inotify::capability::Capability;
use notify_inotify::event::{
    AccessKind, AccessMode, CreateKind, DataChange, Event, EventKind, MetadataKind, ModifyKind,
    RemoveKind, RenameMode,
};
use notify_inotify::native::{
    decode_kind, translate, NativeEvent, IN_ACCESS, IN_ATTRIB, IN_CLOSE_NOWRITE, IN_CLOSE_WRITE,
    IN_CREATE, IN_DELETE, IN_DELETE_SELF, IN_IGNORED, IN_ISDIR, IN_MODIFY, IN_MOVED_FROM,
    IN_MOVED_TO, IN_MOVE_SELF, IN_OPEN, IN_Q_OVERFLOW, IN_UNMOUNT,
};

fn rec(mask: u32, cookie: u32, name: Option<&str>) -> NativeEvent {
    NativeEvent { mask, cookie, name: name.map(|s| s.to_string()) }
}

fn item(r: Result<Pull, StreamError>) -> Event {
    match r {
        Ok(Pull::Item(e)) => e,
        other => panic!("expected an event, got {:?}", other),
    }
}

fn is_end(r: &Result<Pull, StreamError>) -> bool {
    matches!(r, Ok(Pull::End))
}

#[test]
fn single_flags_follow_the_table() {
    let cases = vec![
        (IN_ACCESS, EventKind::Access(AccessKind::Any)),
        (IN_ATTRIB, EventKind::Modify(ModifyKind::Metadata(MetadataKind::Any))),
        (IN_CLOSE_WRITE, EventKind::Access(AccessKind::Close(AccessMode::Write))),
        (IN_CLOSE_NOWRITE, EventKind::Access(AccessKind::Close(AccessMode::Read))),
        (IN_CREATE, EventKind::Create(CreateKind::File)),
        (IN_CREATE | IN_ISDIR, EventKind::Create(CreateKind::Folder)),
        (IN_DELETE, EventKind::Remove(RemoveKind::File)),
        (IN_DELETE_SELF, EventKind::Remove(RemoveKind::File)),
        (IN_DELETE | IN_ISDIR, EventKind::Remove(RemoveKind::Folder)),
        (IN_MODIFY, EventKind::Modify(ModifyKind::Data(DataChange::Any))),
        (IN_MOVE_SELF, EventKind::Modify(ModifyKind::Name(RenameMode::Any))),
        (IN_MOVED_FROM, EventKind::Modify(ModifyKind::Name(RenameMode::From))),
        (IN_MOVED_TO, EventKind::Modify(ModifyKind::Name(RenameMode::To))),
        (IN_OPEN, EventKind::Access(AccessKind::Open(AccessMode::Any))),
        (IN_UNMOUNT, EventKind::Remove(RemoveKind::Other("unmount".to_string()))),
        (0, EventKind::Any),
        (IN_ISDIR, EventKind::Any),
    ];
    for (mask, kind) in cases {
        assert_eq!(decode_kind(mask), kind, "mask {:#x}", mask);
    }
}

#[test]
fn overlapping_flags_take_the_first_row() {
    assert_eq!(decode_kind(IN_ACCESS | IN_ATTRIB), EventKind::Access(AccessKind::Any));
    assert_eq!(
        decode_kind(IN_ATTRIB | IN_CLOSE_WRITE | IN_CREATE),
        EventKind::Modify(ModifyKind::Metadata(MetadataKind::Any))
    );
    assert_eq!(
        decode_kind(IN_CLOSE_WRITE | IN_CLOSE_NOWRITE),
        EventKind::Access(AccessKind::Close(AccessMode::Write))
    );
    assert_eq!(
        decode_kind(IN_CREATE | IN_DELETE | IN_ISDIR),
        EventKind::Create(CreateKind::Folder)
    );
    assert_eq!(
        decode_kind(IN_MOVED_FROM | IN_MOVED_TO),
        EventKind::Modify(ModifyKind::Name(RenameMode::From))
    );
    assert_eq!(
        decode_kind(IN_OPEN | IN_UNMOUNT),
        EventKind::Access(AccessKind::Open(AccessMode::Any))
    );
}

#[test]
fn translate_fills_paths_relid_and_source() {
    let e = translate(rec(IN_MOVED_TO, 42, Some("new.txt")));
    assert_eq!(e.kind, EventKind::Modify(ModifyKind::Name(RenameMode::To)));
    assert_eq!(e.paths, vec!["new.txt".to_string()]);
    assert_eq!(e.relid, Some(42));
    assert_eq!(e.source, "inotify");
    let f = translate(rec(IN_MODIFY, 0, None));
    assert!(f.paths.is_empty());
    assert_eq!(f.relid, None);
}

#[test]
fn declares_capabilities_and_name() {
    assert_eq!(
        Backend::capabilities(),
        vec![
            Capability::EmitOnAccess,
            Capability::FollowSymlinks,
            Capability::TrackRelated,
            Capability::WatchFiles,
            Capability::WatchFolders,
        ]
    );
    assert_eq!(Backend::name(), "inotify");
}

#[test]
fn relid_only_with_track_related() {
    let e = translate(rec(IN_MOVED_FROM, 9, Some("a")));
    assert!(e.relid.is_some());
    assert!(Backend::capabilities().contains(&Capability::TrackRelated));
}

#[test]
fn open_backend_with_nothing_is_pending() {
    let mut b = Backend::new();
    assert!(matches!(b.poll(vec![]), Ok(Pull::Pending)));
    assert!(!b.is_closed());
}

#[test]
fn overflow_delivers_buffered_events_then_one_failure_then_end() {
    let mut b = Backend::new();
    let r = b.process_events(vec![
        rec(IN_CREATE, 0, Some("e1")),
        rec(IN_MODIFY, 0, Some("e2")),
    ]);
    assert!(r.is_ok());
    let r = b.process_events(vec![
        rec(IN_DELETE, 0, Some("e3")),
        rec(IN_Q_OVERFLOW, 0, None),
        rec(IN_CREATE, 0, Some("dropped")),
    ]);
    assert_eq!(r, Err(StreamError::UpstreamOverflow));
    assert!(b.is_closed());
    assert_eq!(item(b.poll_buffered()).paths, vec!["e1".to_string()]);
    assert_eq!(item(b.poll_buffered()).paths, vec!["e2".to_string()]);
    assert_eq!(item(b.poll_buffered()).paths, vec!["e3".to_string()]);
    assert!(matches!(b.poll_buffered(), Err(StreamError::UpstreamOverflow)));
    for _ in 0..3 {
        assert!(is_end(&b.poll_buffered()));
    }
}

#[test]
fn ignored_ends_cleanly_after_buffered_events() {
    let mut b = Backend::new();
    let first = b.poll(vec![
        rec(IN_CREATE, 0, Some("x")),
        rec(IN_IGNORED, 0, None),
        rec(IN_Q_OVERFLOW, 0, None),
    ]);
    assert_eq!(item(first).kind, EventKind::Create(CreateKind::File));
    assert!(b.is_closed());
    for _ in 0..3 {
        let r = b.poll_buffered();
        assert!(r.is_ok());
        assert!(is_end(&r));
    }
}

#[test]
fn create_rename_delete_then_overflow() {
    let mut b = Backend::new();
    let mut seen = Vec::new();
    let r = b.poll(vec![rec(IN_CREATE, 0, Some("file"))]);
    seen.push(item(r));
    let r = b.poll(vec![
        rec(IN_MOVED_FROM, 77, Some("file")),
        rec(IN_MOVED_TO, 77, Some("renamed")),
    ]);
    seen.push(item(r));
    seen.push(item(b.poll_buffered()));
    let r = b.poll(vec![rec(IN_DELETE, 0, Some("renamed"))]);
    seen.push(item(r));
    assert_eq!(seen[0].kind, EventKind::Create(CreateKind::File));
    assert_eq!(seen[0].paths, vec!["file".to_string()]);
    assert_eq!(seen[1].kind, EventKind::Modify(ModifyKind::Name(RenameMode::From)));
    assert_eq!(seen[2].kind, EventKind::Modify(ModifyKind::Name(RenameMode::To)));
    assert!(seen[1].relid.is_some());
    assert_eq!(seen[1].relid, seen[2].relid);
    assert_eq!(seen[3].kind, EventKind::Remove(RemoveKind::File));

    let r = b.poll(vec![rec(IN_MODIFY, 0, Some("late")), rec(IN_Q_OVERFLOW, 0, None)]);
    assert_eq!(item(r).paths, vec!["late".to_string()]);
    assert!(matches!(b.poll_buffered(), Err(StreamError::UpstreamOverflow)));
    assert!(is_end(&b.poll_buffered()));
    assert!(is_end(&b.poll_buffered()));
}

#[test]
fn closed_stream_ignores_a_batch_and_drains() {
    let mut b = Backend::new();
    assert!(b.process_events(vec![rec(IN_CREATE, 0, Some("kept"))]).is_ok());
    b.close();
    assert!(b.is_closed());
    let r = b.poll(vec![rec(IN_CREATE, 0, Some("ignored"))]);
    assert_eq!(item(r).paths, vec!["kept".to_string()]);
    assert!(is_end(&b.poll(vec![rec(IN_CREATE, 0, Some("ignored"))])));
    assert!(is_end(&b.poll(vec![])));
}

#[test]
fn read_sizes_hold_two_hundred_records() {
    assert_eq!(notify_inotify::backend::BUFFER_SIZE, 200 * 24);
    assert_eq!(notify_inotify::backend::BUFFER_SIZE_32, 200 * 20);
}
