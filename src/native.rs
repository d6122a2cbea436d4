//! Native inotify records and their translation into normalised events.

use vstd::prelude::*;
use crate::event::{
    AccessKind, AccessMode, Attrs, CreateKind, DataChange, Event, EventKind, MetadataKind,
    ModifyKind, RemoveKind, RenameMode, attr_count, path_views,
};

verus! {

/// File was accessed.
pub const IN_ACCESS: u32 = 0x1;
/// File was modified.
pub const IN_MODIFY: u32 = 0x2;
/// Metadata changed.
pub const IN_ATTRIB: u32 = 0x4;
/// File opened for writing was closed.
pub const IN_CLOSE_WRITE: u32 = 0x8;
/// File not opened for writing was closed.
pub const IN_CLOSE_NOWRITE: u32 = 0x10;
/// File was opened.
pub const IN_OPEN: u32 = 0x20;
/// File was moved out of the watched directory.
pub const IN_MOVED_FROM: u32 = 0x40;
/// File was moved into the watched directory.
pub const IN_MOVED_TO: u32 = 0x80;
/// File or directory was created.
pub const IN_CREATE: u32 = 0x100;
/// File or directory was deleted.
pub const IN_DELETE: u32 = 0x200;
/// The watched file or directory itself was deleted.
pub const IN_DELETE_SELF: u32 = 0x400;
/// The watched file or directory itself was moved.
pub const IN_MOVE_SELF: u32 = 0x800;
/// The filesystem holding the watched object was unmounted.
pub const IN_UNMOUNT: u32 = 0x2000;
/// The kernel's event queue overflowed.
pub const IN_Q_OVERFLOW: u32 = 0x4000;
/// The watch was removed.
pub const IN_IGNORED: u32 = 0x8000;
/// The subject of the event is a directory.
pub const IN_ISDIR: u32 = 0x4000_0000;

/// The name of the inotify backend, used as the source of its events.
pub const BACKEND_NAME: &'static str = "inotify";

/// One native inotify record, as read from the kernel.
#[derive(Clone, Debug)]
pub struct NativeEvent {
    /// The flags set on the record.
    pub mask: u32,
    /// The correlation cookie; zero when the record is not related to another.
    pub cookie: u32,
    /// The name attached to the record, if any.
    pub name: Option<String>,
}

/// Whether every bit of `flag` is set in `mask`.
pub open spec fn has(mask: u32, flag: u32) -> bool {
    mask & flag == flag
}

/// Whether `k` is the kind that the precedence table gives for `mask`: the first
/// condition that holds, in order, decides.
pub open spec fn decoded(mask: u32, k: EventKind) -> bool {
    if has(mask, IN_ACCESS) {
        k == EventKind::Access(AccessKind::Any)
    } else if has(mask, IN_ATTRIB) {
        k == EventKind::Modify(ModifyKind::Metadata(MetadataKind::Any))
    } else if has(mask, IN_CLOSE_WRITE) {
        k == EventKind::Access(AccessKind::Close(AccessMode::Write))
    } else if has(mask, IN_CLOSE_NOWRITE) {
        k == EventKind::Access(AccessKind::Close(AccessMode::Read))
    } else if has(mask, IN_CREATE) {
        if has(mask, IN_ISDIR) {
            k == EventKind::Create(CreateKind::Folder)
        } else {
            k == EventKind::Create(CreateKind::File)
        }
    } else if has(mask, IN_DELETE) || has(mask, IN_DELETE_SELF) {
        if has(mask, IN_ISDIR) {
            k == EventKind::Remove(RemoveKind::Folder)
        } else {
            k == EventKind::Remove(RemoveKind::File)
        }
    } else if has(mask, IN_MODIFY) {
        k == EventKind::Modify(ModifyKind::Data(DataChange::Any))
    } else if has(mask, IN_MOVE_SELF) {
        k == EventKind::Modify(ModifyKind::Name(RenameMode::Any))
    } else if has(mask, IN_MOVED_FROM) {
        k == EventKind::Modify(ModifyKind::Name(RenameMode::From))
    } else if has(mask, IN_MOVED_TO) {
        k == EventKind::Modify(ModifyKind::Name(RenameMode::To))
    } else if has(mask, IN_OPEN) {
        k == EventKind::Access(AccessKind::Open(AccessMode::Any))
    } else if has(mask, IN_UNMOUNT) {
        k matches EventKind::Remove(RemoveKind::Other(s)) && s@ == "unmount"@
    } else {
        k == EventKind::Any
    }
}

/// The relation ID that a cookie stands for: none for zero.
pub open spec fn relid_of(cookie: u32) -> Option<usize> {
    if cookie == 0 {
        None
    } else {
        Some(cookie as usize)
    }
}

/// The paths that a record's name stands for: the name alone, or none.
pub open spec fn paths_of(name: Option<String>) -> Seq<Seq<char>> {
    match name {
        Some(n) => seq![n@],
        None => Seq::empty(),
    }
}

/// Whether `e` is the event that the backend makes of the record `rec`.
pub open spec fn translated(rec: NativeEvent, e: Event) -> bool {
    &&& decoded(rec.mask, e.kind)
    &&& path_views(e.paths@) == paths_of(rec.name)
    &&& e.relid == relid_of(rec.cookie)
    &&& attr_count(e.attrs) == 0
    &&& e.source@ == BACKEND_NAME@
}

/// Picks the event kind for a native flag set, by the fixed precedence table.
pub fn decode_kind(mask: u32) -> (k: EventKind)
    ensures
        decoded(mask, k),
{
    if mask & IN_ACCESS == IN_ACCESS {
        EventKind::Access(AccessKind::Any)
    } else if mask & IN_ATTRIB == IN_ATTRIB {
        EventKind::Modify(ModifyKind::Metadata(MetadataKind::Any))
    } else if mask & IN_CLOSE_WRITE == IN_CLOSE_WRITE {
        EventKind::Access(AccessKind::Close(AccessMode::Write))
    } else if mask & IN_CLOSE_NOWRITE == IN_CLOSE_NOWRITE {
        EventKind::Access(AccessKind::Close(AccessMode::Read))
    } else if mask & IN_CREATE == IN_CREATE {
        EventKind::Create(
            if mask & IN_ISDIR == IN_ISDIR {
                CreateKind::Folder
            } else {
                CreateKind::File
            },
        )
    } else if mask & IN_DELETE == IN_DELETE || mask & IN_DELETE_SELF == IN_DELETE_SELF {
        EventKind::Remove(
            if mask & IN_ISDIR == IN_ISDIR {
                RemoveKind::Folder
            } else {
                RemoveKind::File
            },
        )
    } else if mask & IN_MODIFY == IN_MODIFY {
        EventKind::Modify(ModifyKind::Data(DataChange::Any))
    } else if mask & IN_MOVE_SELF == IN_MOVE_SELF {
        EventKind::Modify(ModifyKind::Name(RenameMode::Any))
    } else if mask & IN_MOVED_FROM == IN_MOVED_FROM {
        EventKind::Modify(ModifyKind::Name(RenameMode::From))
    } else if mask & IN_MOVED_TO == IN_MOVED_TO {
        EventKind::Modify(ModifyKind::Name(RenameMode::To))
    } else if mask & IN_OPEN == IN_OPEN {
        EventKind::Access(AccessKind::Open(AccessMode::Any))
    } else if mask & IN_UNMOUNT == IN_UNMOUNT {
        let s = "unmount".to_owned();
        proof {
            reveal_strlit("unmount");
        }
        EventKind::Remove(RemoveKind::Other(s))
    } else {
        EventKind::Any
    }
}

/// Makes the normalised event for one native record.
pub fn translate(rec: NativeEvent) -> (e: Event)
    ensures
        translated(rec, e),
{
    let kind = decode_kind(rec.mask);
    let mut paths: Vec<String> = Vec::new();
    match rec.name {
        Some(n) => {
            paths.push(n);
        },
        None => {},
    }
    let relid = if rec.cookie == 0 {
        None
    } else {
        Some(rec.cookie as usize)
    };
    proof {
        assert(path_views(paths@) =~= paths_of(rec.name));
    }
    Event { kind, paths, relid, attrs: Attrs::new(), source: BACKEND_NAME }
}

/// The translation is a function of the record: the kind it gives for any flag set is the
/// one that the first matching row of the precedence table names, whatever other flags are
/// set beside it, and any two kinds decoded from the same flags are the same kind.
pub proof fn lemma_decode_is_determined(mask: u32, k1: EventKind, k2: EventKind)
    requires
        decoded(mask, k1),
        decoded(mask, k2),
    ensures
        vstd::std_specs::cmp::PartialEqSpec::eq_spec(&k1, &k2),
{
    reveal_strlit("unmount");
}

} // verus!
