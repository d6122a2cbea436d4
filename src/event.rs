//! The `Event` type and the hierarchical `EventKind` descriptor.

use vstd::prelude::*;

verus! {

/// An event describing open or close operations on files.
#[derive(Clone, Debug, Hash)]
pub enum AccessMode {
    /// The catch-all case, to be used when the specific kind of event is unknown.
    Any,

    /// An event emitted when the file is executed, or the folder opened.
    Execute,

    /// An event emitted when the file is opened for reading.
    Read,

    /// An event emitted when the file is opened for writing.
    Write,

    /// An event which specific kind is known but cannot be represented otherwise.
    Other(String),
}

impl PartialEq for AccessMode {
    fn eq(&self, o: &AccessMode) -> (r: bool) {
        match self {
            AccessMode::Any => match o {
                AccessMode::Any => true,
                _ => false,
            },
            AccessMode::Execute => match o {
                AccessMode::Execute => true,
                _ => false,
            },
            AccessMode::Read => match o {
                AccessMode::Read => true,
                _ => false,
            },
            AccessMode::Write => match o {
                AccessMode::Write => true,
                _ => false,
            },
            AccessMode::Other(a) => match o {
                AccessMode::Other(b) => a.eq(b),
                _ => false,
            },
        }
    }
}

impl vstd::std_specs::cmp::PartialEqSpecImpl for AccessMode {
    open spec fn obeys_eq_spec() -> bool {
        true
    }

    open spec fn eq_spec(&self, o: &AccessMode) -> bool {
        match self {
            AccessMode::Any => match o {
                AccessMode::Any => true,
                _ => false,
            },
            AccessMode::Execute => match o {
                AccessMode::Execute => true,
                _ => false,
            },
            AccessMode::Read => match o {
                AccessMode::Read => true,
                _ => false,
            },
            AccessMode::Write => match o {
                AccessMode::Write => true,
                _ => false,
            },
            AccessMode::Other(a) => match o {
                AccessMode::Other(b) => a@ == b@,
                _ => false,
            },
        }
    }
}

impl Eq for AccessMode {
}

/// An event describing non-mutating access operations on files.
#[derive(Clone, Debug, Hash)]
pub enum AccessKind {
    /// The catch-all case, to be used when the specific kind of event is unknown.
    Any,

    /// An event emitted when the file is read.
    Read,

    /// An event emitted when the file, or a handle to the file, is opened.
    Open(AccessMode),

    /// An event emitted when the file, or a handle to the file, is closed.
    Close(AccessMode),

    /// An event which specific kind is known but cannot be represented otherwise.
    Other(String),
}

impl PartialEq for AccessKind {
    fn eq(&self, o: &AccessKind) -> (r: bool) {
        match self {
            AccessKind::Any => match o {
                AccessKind::Any => true,
                _ => false,
            },
            AccessKind::Read => match o {
                AccessKind::Read => true,
                _ => false,
            },
            AccessKind::Open(a) => match o {
                AccessKind::Open(b) => a.eq(b),
                _ => false,
            },
            AccessKind::Close(a) => match o {
                AccessKind::Close(b) => a.eq(b),
                _ => false,
            },
            AccessKind::Other(a) => match o {
                AccessKind::Other(b) => a.eq(b),
                _ => false,
            },
        }
    }
}

impl vstd::std_specs::cmp::PartialEqSpecImpl for AccessKind {
    open spec fn obeys_eq_spec() -> bool {
        true
    }

    open spec fn eq_spec(&self, o: &AccessKind) -> bool {
        match self {
            AccessKind::Any => match o {
                AccessKind::Any => true,
                _ => false,
            },
            AccessKind::Read => match o {
                AccessKind::Read => true,
                _ => false,
            },
            AccessKind::Open(a) => match o {
                AccessKind::Open(b) => vstd::std_specs::cmp::PartialEqSpec::eq_spec(a, b),
                _ => false,
            },
            AccessKind::Close(a) => match o {
                AccessKind::Close(b) => vstd::std_specs::cmp::PartialEqSpec::eq_spec(a, b),
                _ => false,
            },
            AccessKind::Other(a) => match o {
                AccessKind::Other(b) => a@ == b@,
                _ => false,
            },
        }
    }
}

impl Eq for AccessKind {
}

/// An event describing creation operations on files.
#[derive(Clone, Debug, Hash)]
pub enum CreateKind {
    /// The catch-all case, to be used when the specific kind of event is unknown.
    Any,

    /// An event which results in the creation of a file.
    File,

    /// An event which results in the creation of a folder.
    Folder,

    /// An event which specific kind is known but cannot be represented otherwise.
    Other(String),
}

impl PartialEq for CreateKind {
    fn eq(&self, o: &CreateKind) -> (r: bool) {
        match self {
            CreateKind::Any => match o {
                CreateKind::Any => true,
                _ => false,
            },
            CreateKind::File => match o {
                CreateKind::File => true,
                _ => false,
            },
            CreateKind::Folder => match o {
                CreateKind::Folder => true,
                _ => false,
            },
            CreateKind::Other(a) => match o {
                CreateKind::Other(b) => a.eq(b),
                _ => false,
            },
        }
    }
}

impl vstd::std_specs::cmp::PartialEqSpecImpl for CreateKind {
    open spec fn obeys_eq_spec() -> bool {
        true
    }

    open spec fn eq_spec(&self, o: &CreateKind) -> bool {
        match self {
            CreateKind::Any => match o {
                CreateKind::Any => true,
                _ => false,
            },
            CreateKind::File => match o {
                CreateKind::File => true,
                _ => false,
            },
            CreateKind::Folder => match o {
                CreateKind::Folder => true,
                _ => false,
            },
            CreateKind::Other(a) => match o {
                CreateKind::Other(b) => a@ == b@,
                _ => false,
            },
        }
    }
}

impl Eq for CreateKind {
}

/// An event emitted when the data content of a file is changed.
#[derive(Clone, Debug, Hash)]
pub enum DataChange {
    /// The catch-all case, to be used when the specific kind of event is unknown.
    Any,

    /// An event emitted when the size of the data is changed.
    Size,

    /// An event emitted when the content of the data is changed.
    Content,

    /// An event which specific kind is known but cannot be represented otherwise.
    Other(String),
}

impl PartialEq for DataChange {
    fn eq(&self, o: &DataChange) -> (r: bool) {
        match self {
            DataChange::Any => match o {
                DataChange::Any => true,
                _ => false,
            },
            DataChange::Size => match o {
                DataChange::Size => true,
                _ => false,
            },
            DataChange::Content => match o {
                DataChange::Content => true,
                _ => false,
            },
            DataChange::Other(a) => match o {
                DataChange::Other(b) => a.eq(b),
                _ => false,
            },
        }
    }
}

impl vstd::std_specs::cmp::PartialEqSpecImpl for DataChange {
    open spec fn obeys_eq_spec() -> bool {
        true
    }

    open spec fn eq_spec(&self, o: &DataChange) -> bool {
        match self {
            DataChange::Any => match o {
                DataChange::Any => true,
                _ => false,
            },
            DataChange::Size => match o {
                DataChange::Size => true,
                _ => false,
            },
            DataChange::Content => match o {
                DataChange::Content => true,
                _ => false,
            },
            DataChange::Other(a) => match o {
                DataChange::Other(b) => a@ == b@,
                _ => false,
            },
        }
    }
}

impl Eq for DataChange {
}

/// An event emitted when the metadata of a file or folder is changed.
#[derive(Clone, Debug, Hash)]
pub enum MetadataKind {
    /// The catch-all case, to be used when the specific kind of event is unknown.
    Any,

    /// An event emitted when the access time of the file or folder is changed.
    AccessTime,

    /// An event emitted when the write or modify time of the file or folder is changed.
    WriteTime,

    /// An event emitted when the permissions of the file or folder are changed.
    Permissions,

    /// An event emitted when the ownership of the file or folder is changed.
    Ownership,

    /// An event emitted when an extended attribute of the file or folder is changed.
    Extended(String),

    /// An event which specific kind is known but cannot be represented otherwise.
    Other(String),
}

impl PartialEq for MetadataKind {
    fn eq(&self, o: &MetadataKind) -> (r: bool) {
        match self {
            MetadataKind::Any => match o {
                MetadataKind::Any => true,
                _ => false,
            },
            MetadataKind::AccessTime => match o {
                MetadataKind::AccessTime => true,
                _ => false,
            },
            MetadataKind::WriteTime => match o {
                MetadataKind::WriteTime => true,
                _ => false,
            },
            MetadataKind::Permissions => match o {
                MetadataKind::Permissions => true,
                _ => false,
            },
            MetadataKind::Ownership => match o {
                MetadataKind::Ownership => true,
                _ => false,
            },
            MetadataKind::Extended(a) => match o {
                MetadataKind::Extended(b) => a.eq(b),
                _ => false,
            },
            MetadataKind::Other(a) => match o {
                MetadataKind::Other(b) => a.eq(b),
                _ => false,
            },
        }
    }
}

impl vstd::std_specs::cmp::PartialEqSpecImpl for MetadataKind {
    open spec fn obeys_eq_spec() -> bool {
        true
    }

    open spec fn eq_spec(&self, o: &MetadataKind) -> bool {
        match self {
            MetadataKind::Any => match o {
                MetadataKind::Any => true,
                _ => false,
            },
            MetadataKind::AccessTime => match o {
                MetadataKind::AccessTime => true,
                _ => false,
            },
            MetadataKind::WriteTime => match o {
                MetadataKind::WriteTime => true,
                _ => false,
            },
            MetadataKind::Permissions => match o {
                MetadataKind::Permissions => true,
                _ => false,
            },
            MetadataKind::Ownership => match o {
                MetadataKind::Ownership => true,
                _ => false,
            },
            MetadataKind::Extended(a) => match o {
                MetadataKind::Extended(b) => a@ == b@,
                _ => false,
            },
            MetadataKind::Other(a) => match o {
                MetadataKind::Other(b) => a@ == b@,
                _ => false,
            },
        }
    }
}

impl Eq for MetadataKind {
}

/// An event emitted when the name of a file or folder is changed.
#[derive(Clone, Debug, Hash)]
pub enum RenameMode {
    /// The catch-all case, to be used when the specific kind of event is unknown.
    Any,

    /// An event emitted on the file or folder resulting from a rename.
    To,

    /// An event emitted on the file or folder that was renamed.
    From,

    /// An event which specific kind is known but cannot be represented otherwise.
    Other(String),
}

impl PartialEq for RenameMode {
    fn eq(&self, o: &RenameMode) -> (r: bool) {
        match self {
            RenameMode::Any => match o {
                RenameMode::Any => true,
                _ => false,
            },
            RenameMode::To => match o {
                RenameMode::To => true,
                _ => false,
            },
            RenameMode::From => match o {
                RenameMode::From => true,
                _ => false,
            },
            RenameMode::Other(a) => match o {
                RenameMode::Other(b) => a.eq(b),
                _ => false,
            },
        }
    }
}

impl vstd::std_specs::cmp::PartialEqSpecImpl for RenameMode {
    open spec fn obeys_eq_spec() -> bool {
        true
    }

    open spec fn eq_spec(&self, o: &RenameMode) -> bool {
        match self {
            RenameMode::Any => match o {
                RenameMode::Any => true,
                _ => false,
            },
            RenameMode::To => match o {
                RenameMode::To => true,
                _ => false,
            },
            RenameMode::From => match o {
                RenameMode::From => true,
                _ => false,
            },
            RenameMode::Other(a) => match o {
                RenameMode::Other(b) => a@ == b@,
                _ => false,
            },
        }
    }
}

impl Eq for RenameMode {
}

/// An event describing mutation of content, name, or metadata.
#[derive(Clone, Debug, Hash)]
pub enum ModifyKind {
    /// The catch-all case, to be used when the specific kind of event is unknown.
    Any,

    /// An event emitted when the data content of a file is changed.
    Data(DataChange),

    /// An event emitted when the metadata of a file or folder is changed.
    Metadata(MetadataKind),

    /// An event emitted when the name of a file or folder is changed.
    Name(RenameMode),

    /// An event which specific kind is known but cannot be represented otherwise.
    Other(String),
}

impl PartialEq for ModifyKind {
    fn eq(&self, o: &ModifyKind) -> (r: bool) {
        match self {
            ModifyKind::Any => match o {
                ModifyKind::Any => true,
                _ => false,
            },
            ModifyKind::Data(a) => match o {
                ModifyKind::Data(b) => a.eq(b),
                _ => false,
            },
            ModifyKind::Metadata(a) => match o {
                ModifyKind::Metadata(b) => a.eq(b),
                _ => false,
            },
            ModifyKind::Name(a) => match o {
                ModifyKind::Name(b) => a.eq(b),
                _ => false,
            },
            ModifyKind::Other(a) => match o {
                ModifyKind::Other(b) => a.eq(b),
                _ => false,
            },
        }
    }
}

impl vstd::std_specs::cmp::PartialEqSpecImpl for ModifyKind {
    open spec fn obeys_eq_spec() -> bool {
        true
    }

    open spec fn eq_spec(&self, o: &ModifyKind) -> bool {
        match self {
            ModifyKind::Any => match o {
                ModifyKind::Any => true,
                _ => false,
            },
            ModifyKind::Data(a) => match o {
                ModifyKind::Data(b) => vstd::std_specs::cmp::PartialEqSpec::eq_spec(a, b),
                _ => false,
            },
            ModifyKind::Metadata(a) => match o {
                ModifyKind::Metadata(b) => vstd::std_specs::cmp::PartialEqSpec::eq_spec(a, b),
                _ => false,
            },
            ModifyKind::Name(a) => match o {
                ModifyKind::Name(b) => vstd::std_specs::cmp::PartialEqSpec::eq_spec(a, b),
                _ => false,
            },
            ModifyKind::Other(a) => match o {
                ModifyKind::Other(b) => a@ == b@,
                _ => false,
            },
        }
    }
}

impl Eq for ModifyKind {
}

/// An event describing removal operations on files.
#[derive(Clone, Debug, Hash)]
pub enum RemoveKind {
    /// The catch-all case, to be used when the specific kind of event is unknown.
    Any,

    /// An event emitted when a file is removed.
    File,

    /// An event emitted when a folder is removed.
    Folder,

    /// An event which specific kind is known but cannot be represented otherwise.
    Other(String),
}

impl PartialEq for RemoveKind {
    fn eq(&self, o: &RemoveKind) -> (r: bool) {
        match self {
            RemoveKind::Any => match o {
                RemoveKind::Any => true,
                _ => false,
            },
            RemoveKind::File => match o {
                RemoveKind::File => true,
                _ => false,
            },
            RemoveKind::Folder => match o {
                RemoveKind::Folder => true,
                _ => false,
            },
            RemoveKind::Other(a) => match o {
                RemoveKind::Other(b) => a.eq(b),
                _ => false,
            },
        }
    }
}

impl vstd::std_specs::cmp::PartialEqSpecImpl for RemoveKind {
    open spec fn obeys_eq_spec() -> bool {
        true
    }

    open spec fn eq_spec(&self, o: &RemoveKind) -> bool {
        match self {
            RemoveKind::Any => match o {
                RemoveKind::Any => true,
                _ => false,
            },
            RemoveKind::File => match o {
                RemoveKind::File => true,
                _ => false,
            },
            RemoveKind::Folder => match o {
                RemoveKind::Folder => true,
                _ => false,
            },
            RemoveKind::Other(a) => match o {
                RemoveKind::Other(b) => a@ == b@,
                _ => false,
            },
        }
    }
}

impl Eq for RemoveKind {
}

/// Top-level event kind.
///
/// Most consumers only care about which of the four general kinds an event is about; the
/// nested kinds carry detail that a particular backend may or may not be able to provide.
#[derive(Clone, Debug, Hash)]
pub enum EventKind {
    /// The catch-all event kind, for unsupported or unknown events.
    ///
    /// This is the "else" case when mapping native bitmasks, so that new native event types
    /// never gain a meaning by accident.
    Any,

    /// An event describing non-mutating access operations on files.
    ///
    /// Only backends with the `EmitOnAccess` capability generate these.
    Access(AccessKind),

    /// An event describing creation operations on files.
    Create(CreateKind),

    /// An event describing mutation of content, name, or metadata.
    Modify(ModifyKind),

    /// An event describing removal operations on files.
    Remove(RemoveKind),

    /// An event not fitting in any of the above four categories.
    Other(String),
}

impl PartialEq for EventKind {
    fn eq(&self, o: &EventKind) -> (r: bool) {
        match self {
            EventKind::Any => match o {
                EventKind::Any => true,
                _ => false,
            },
            EventKind::Access(a) => match o {
                EventKind::Access(b) => a.eq(b),
                _ => false,
            },
            EventKind::Create(a) => match o {
                EventKind::Create(b) => a.eq(b),
                _ => false,
            },
            EventKind::Modify(a) => match o {
                EventKind::Modify(b) => a.eq(b),
                _ => false,
            },
            EventKind::Remove(a) => match o {
                EventKind::Remove(b) => a.eq(b),
                _ => false,
            },
            EventKind::Other(a) => match o {
                EventKind::Other(b) => a.eq(b),
                _ => false,
            },
        }
    }
}

impl vstd::std_specs::cmp::PartialEqSpecImpl for EventKind {
    open spec fn obeys_eq_spec() -> bool {
        true
    }

    open spec fn eq_spec(&self, o: &EventKind) -> bool {
        match self {
            EventKind::Any => match o {
                EventKind::Any => true,
                _ => false,
            },
            EventKind::Access(a) => match o {
                EventKind::Access(b) => vstd::std_specs::cmp::PartialEqSpec::eq_spec(a, b),
                _ => false,
            },
            EventKind::Create(a) => match o {
                EventKind::Create(b) => vstd::std_specs::cmp::PartialEqSpec::eq_spec(a, b),
                _ => false,
            },
            EventKind::Modify(a) => match o {
                EventKind::Modify(b) => vstd::std_specs::cmp::PartialEqSpec::eq_spec(a, b),
                _ => false,
            },
            EventKind::Remove(a) => match o {
                EventKind::Remove(b) => vstd::std_specs::cmp::PartialEqSpec::eq_spec(a, b),
                _ => false,
            },
            EventKind::Other(a) => match o {
                EventKind::Other(b) => a@ == b@,
                _ => false,
            },
        }
    }
}

impl Eq for EventKind {
}

impl EventKind {
    /// Indicates whether an event is an `Access` variant.
    pub fn is_access(&self) -> (r: bool)
        ensures
            r == (self is Access),
    {
        match self {
            EventKind::Access(_) => true,
            _ => false,
        }
    }

    /// Indicates whether an event is a `Create` variant.
    pub fn is_create(&self) -> (r: bool)
        ensures
            r == (self is Create),
    {
        match self {
            EventKind::Create(_) => true,
            _ => false,
        }
    }

    /// Indicates whether an event is a `Modify` variant.
    pub fn is_modify(&self) -> (r: bool)
        ensures
            r == (self is Modify),
    {
        match self {
            EventKind::Modify(_) => true,
            _ => false,
        }
    }

    /// Indicates whether an event is a `Remove` variant.
    pub fn is_remove(&self) -> (r: bool)
        ensures
            r == (self is Remove),
    {
        match self {
            EventKind::Remove(_) => true,
            _ => false,
        }
    }
}

impl Default for EventKind {
    fn default() -> (r: EventKind)
        ensures
            r == EventKind::Any,
    {
        EventKind::Any
    }
}

/// How many entries an attribute map holds.
pub uninterp spec fn attr_count(a: Attrs) -> nat;

/// Caller-extensible attributes of an event, keyed by type.
///
/// The contents are heterogeneous and orderless; they take no part in comparing or hashing
/// events.
#[verifier::external_body]
#[derive(Debug)]
pub struct Attrs {
    map: anymap::Map<dyn anymap::any::CloneAny + Send + Sync>,
}

impl Attrs {
    /// Relies on anymap's `Map::new`: the map it creates is empty.
    #[verifier::external_body]
    pub fn new() -> (r: Attrs)
        ensures
            attr_count(r) == 0,
    {
        Attrs { map: anymap::Map::new() }
    }
}

/// Relies on anymap's `Map::insert`: the value replaces the one of the same type, which is
/// returned, or is added as a new entry.
#[verifier::external_body]
fn anymap_insert<T: Clone + Send + Sync + 'static>(a: &mut Attrs, value: T) -> (r: Option<T>)
    ensures
        r is None ==> attr_count(*final(a)) == attr_count(*old(a)) + 1,
        r is Some ==> attr_count(*final(a)) == attr_count(*old(a)),
{
    a.map.insert(value)
}

/// Relies on anymap's `Map::get`: the entry of type `T`, if the map holds one.
#[verifier::external_body]
fn anymap_get<T: Clone + Send + Sync + 'static>(a: &Attrs) -> (r: Option<&T>)
    ensures
        r is Some ==> attr_count(*a) > 0,
{
    a.map.get::<T>()
}

/// Relies on anymap's `Map::len`: the number of entries.
#[verifier::external_body]
fn anymap_len(a: &Attrs) -> (r: usize)
    ensures
        r == attr_count(*a),
{
    a.map.len()
}

impl Attrs {
    /// Stores `value` as the attribute of its type, and returns the one it replaces.
    pub fn insert<T: Clone + Send + Sync + 'static>(&mut self, value: T) -> (r: Option<T>)
        ensures
            r is None ==> attr_count(*final(self)) == attr_count(*old(self)) + 1,
            r is Some ==> attr_count(*final(self)) == attr_count(*old(self)),
    {
        anymap_insert(self, value)
    }

    /// The attribute of type `T`, if there is one.
    pub fn get<T: Clone + Send + Sync + 'static>(&self) -> (r: Option<&T>)
        ensures
            r is Some ==> attr_count(*self) > 0,
    {
        anymap_get::<T>(self)
    }

    /// The number of attributes held.
    pub fn len(&self) -> (r: usize)
        ensures
            r == attr_count(*self),
    {
        anymap_len(self)
    }
}

impl Clone for Attrs {
    /// Relies on anymap's `Clone` for `Map`: the copy holds a clone of every entry.
    #[verifier::external_body]
    fn clone(&self) -> (r: Attrs)
        ensures
            attr_count(r) == attr_count(*self),
    {
        Attrs { map: self.map.clone() }
    }
}

/// Attributes take no part in comparing events, so any two attribute maps compare equal.
impl PartialEq for Attrs {
    fn eq(&self, o: &Attrs) -> (r: bool) {
        true
    }
}

impl vstd::std_specs::cmp::PartialEqSpecImpl for Attrs {
    open spec fn obeys_eq_spec() -> bool {
        true
    }

    open spec fn eq_spec(&self, o: &Attrs) -> bool {
        true
    }
}

impl Eq for Attrs {
}

/// Attributes take no part in hashing, so they feed nothing to the hasher.
impl std::hash::Hash for Attrs {
    fn hash<H: std::hash::Hasher>(&self, state: &mut H) {
    }
}

/// The characters of each path, in order.
pub open spec fn path_views(paths: Seq<String>) -> Seq<Seq<char>> {
    paths.map_values(|p: String| p@)
}

/// Compares two path lists element by element.
fn paths_eq(a: &Vec<String>, b: &Vec<String>) -> (r: bool)
    ensures
        r == (path_views(a@) == path_views(b@)),
{
    if a.len() != b.len() {
        proof {
            assert(path_views(a@).len() != path_views(b@).len());
        }
        return false;
    }
    let mut i: usize = 0;
    while i < a.len()
        invariant
            a.len() == b.len(),
            0 <= i <= a.len(),
            forall|j: int| 0 <= j < i ==> a@[j]@ == b@[j]@,
        decreases a.len() - i,
    {
        if !a[i].eq(&b[i]) {
            proof {
                assert(path_views(a@)[i as int] != path_views(b@)[i as int]);
            }
            return false;
        }
        i = i + 1;
    }
    proof {
        assert(path_views(a@) =~= path_views(b@));
    }
    true
}

/// A normalised filesystem-change event.
#[derive(Clone, Debug, Hash)]
pub struct Event {
    /// Kind of the event, as precisely as the backend can tell it.
    pub kind: EventKind,
    /// Paths that the event is about; generally zero or one.
    pub paths: Vec<String>,
    /// Relation ID shared by related events, such as the two halves of a rename.
    pub relid: Option<usize>,
    /// Additional attributes; not considered when comparing or hashing.
    pub attrs: Attrs,
    /// Source of the event: the name of the backend that produced it.
    pub source: &'static str,
}

impl Event {
    /// Whether two events agree on everything but their attributes.
    pub open spec fn same_as(&self, o: &Event) -> bool {
        &&& vstd::std_specs::cmp::PartialEqSpec::eq_spec(&self.kind, &o.kind)
        &&& path_views(self.paths@) == path_views(o.paths@)
        &&& self.relid == o.relid
        &&& self.source@ == o.source@
    }
}

impl PartialEq for Event {
    fn eq(&self, o: &Event) -> (r: bool) {
        self.kind.eq(&o.kind) && paths_eq(&self.paths, &o.paths) && self.relid == o.relid
            && self.source.to_owned().eq(&o.source.to_owned())
    }
}

impl vstd::std_specs::cmp::PartialEqSpecImpl for Event {
    open spec fn obeys_eq_spec() -> bool {
        true
    }

    open spec fn eq_spec(&self, o: &Event) -> bool {
        self.same_as(o)
    }
}

impl Eq for Event {
}

/// Every event kind equals itself.
pub proof fn lemma_kind_eq_reflexive(k: EventKind)
    ensures
        vstd::std_specs::cmp::PartialEqSpec::eq_spec(&k, &k),
{
}

/// Events are compared on kind, paths, relation ID and source alone: replacing the
/// attributes of either side never changes whether two events are equal, and two events
/// that agree on those four fields are equal whatever their attributes.
pub proof fn lemma_eq_ignores_attrs(a: Event, b: Event, x: Attrs, y: Attrs)
    ensures
        a.same_as(&b) == (Event { attrs: x, ..a }).same_as(&Event { attrs: y, ..b }),
        (Event { attrs: x, ..a }).same_as(&Event { attrs: y, ..a }),
        a.same_as(&b) ==> vstd::std_specs::cmp::PartialEqSpec::eq_spec(&a.kind, &b.kind)
            && path_views(a.paths@) == path_views(b.paths@) && a.relid == b.relid
            && a.source@ == b.source@,
{
    lemma_kind_eq_reflexive(a.kind);
}

impl Default for Event {
    fn default() -> (r: Event)
        ensures
            r.kind == EventKind::Any,
            r.paths@.len() == 0,
            r.relid is None,
            attr_count(r.attrs) == 0,
            r.source@.len() == 0,
    {
        proof {
            reveal_strlit("");
        }
        Event {
            kind: EventKind::default(),
            paths: Vec::with_capacity(1),
            relid: None,
            attrs: Attrs::new(),
            source: "",
        }
    }
}

} // verus!
