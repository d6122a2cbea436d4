use notify_inotify::event::{
    AccessKind, AccessMode, CreateKind, Event, EventKind, ModifyKind, RemoveKind, RenameMode,
};
use std::collections::hash_map::DefaultHasher;
use std::hash::{Hash, Hasher};

fn hash_of(e: &Event) -> u64 {
    let mut h = DefaultHasher::new();
    e.hash(&mut h);
    h.finish()
}

fn sample() -> Event {
    Event {
        kind: EventKind::Create(CreateKind::File),
        paths: vec!["a.txt".to_string()],
        relid: Some(7),
        attrs: notify_inotify::event::Attrs::new(),
        source: "inotify",
    }
}

#[test]
fn predicates_test_top_level_branch_only() {
    let a = EventKind::Access(AccessKind::Close(AccessMode::Write));
    assert!(a.is_access() && !a.is_create() && !a.is_modify() && !a.is_remove());
    let c = EventKind::Create(CreateKind::Folder);
    assert!(c.is_create() && !c.is_access());
    let m = EventKind::Modify(ModifyKind::Name(RenameMode::From));
    assert!(m.is_modify() && !m.is_remove());
    let r = EventKind::Remove(RemoveKind::Other("unmount".to_string()));
    assert!(r.is_remove() && !r.is_modify());
    for k in [EventKind::Any, EventKind::Other("x".to_string())] {
        assert!(!k.is_access() && !k.is_create() && !k.is_modify() && !k.is_remove());
    }
}

#[test]
fn default_event_is_empty() {
    let e = Event::default();
    assert_eq!(e.kind, EventKind::Any);
    assert!(e.paths.is_empty());
    assert_eq!(e.relid, None);
    assert_eq!(e.source, "");
    assert_eq!(EventKind::default(), EventKind::Any);
}

#[test]
fn events_differing_only_in_attrs_are_equal_and_hash_alike() {
    let a = sample();
    let b = sample();
    assert_eq!(a, b);
    assert_eq!(hash_of(&a), hash_of(&b));
}

#[test]
fn events_differing_in_a_compared_field_are_unequal() {
    let base = sample();
    let mut k = sample();
    k.kind = EventKind::Create(CreateKind::Folder);
    let mut p = sample();
    p.paths = vec!["b.txt".to_string()];
    let mut r = sample();
    r.relid = None;
    let mut s = sample();
    s.source = "other";
    for e in [k, p, r, s] {
        assert_ne!(base, e);
    }
}

#[test]
fn nested_kinds_compare_by_value() {
    assert_eq!(
        EventKind::Remove(RemoveKind::Other("unmount".to_string())),
        EventKind::Remove(RemoveKind::Other("unmount".to_string()))
    );
    assert_ne!(
        EventKind::Remove(RemoveKind::Other("unmount".to_string())),
        EventKind::Remove(RemoveKind::Other("mount".to_string()))
    );
    assert_ne!(
        EventKind::Access(AccessKind::Open(AccessMode::Any)),
        EventKind::Access(AccessKind::Close(AccessMode::Any))
    );
}

#[derive(Clone, Debug, PartialEq)]
struct Tag(u32);

#[test]
fn attrs_take_and_return_typed_entries() {
    let mut e = Event::default();
    assert_eq!(e.attrs.len(), 0);
    assert!(e.attrs.get::<Tag>().is_none());
    assert_eq!(e.attrs.insert(Tag(1)), None);
    assert_eq!(e.attrs.len(), 1);
    assert_eq!(e.attrs.get::<Tag>(), Some(&Tag(1)));
    assert_eq!(e.attrs.insert(Tag(2)), Some(Tag(1)));
    assert_eq!(e.attrs.len(), 1);
    assert_eq!(e.attrs.insert(5u8), None);
    assert_eq!(e.attrs.len(), 2);
    let copy = e.clone();
    assert_eq!(copy.attrs.get::<Tag>(), Some(&Tag(2)));
    assert_eq!(copy, Event::default());
}
