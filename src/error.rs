//! Errors that may occur while a backend is set up.

use std::sync::Arc;
use vstd::prelude::*;
use crate::capability::Capability;
use crate::event::path_views;

verus! {

#[verifier::external_type_specification]
#[verifier::external_body]
pub struct ExIoError(std::io::Error);

/// Any error which may occur during the initialisation of a backend.
#[derive(Clone, Debug)]
pub enum Error {
    /// An error represented by an arbitrary string.
    Generic(String),
    /// An I/O error.
    Io(Arc<std::io::Error>),
    /// The backend's implementation is incomplete.
    NotImplemented,
    /// The backend is unavailable, likely because its native API is inoperable; an optional
    /// reason may be supplied.
    Unavailable(Option<String>),
    /// One or more of the paths do not exist. The list holds those known to be missing, and
    /// is empty when they are not known.
    NonExistent(Vec<String>),
    /// One or more of the paths need a capability that the backend lacks.
    NotSupported(Capability),
    /// A string handed to a native binding held a nul byte, at this position.
    FfiNul(usize),
    /// Bytes from a native binding were not valid UTF-8; they are kept here.
    FfiIntoString(Vec<u8>),
    /// A native string was not nul-terminated, or held a nul byte before its end, at the
    /// position given when it is known.
    FfiFromBytes(Option<usize>),
}

/// Relies on `std::io::Error::kind`: tells whether the error is of kind `NotFound`.
#[verifier::external_body]
fn io_error_is_not_found(err: &std::io::Error) -> (r: bool) {
    err.kind() == std::io::ErrorKind::NotFound
}

/// Relies on `Arc::clone`: the new handle points to the same value.
#[verifier::external_body]
fn share_io(a: &Arc<std::io::Error>) -> (r: Arc<std::io::Error>)
    ensures
        r == *a,
{
    Arc::clone(a)
}

impl Error {
    /// Whether two errors are the same cause: same variant, same payload.
    pub open spec fn same_as(&self, o: &Error) -> bool {
        match (self, o) {
            (Error::Generic(a), Error::Generic(b)) => a@ == b@,
            (Error::Io(a), Error::Io(b)) => a == b,
            (Error::NotImplemented, Error::NotImplemented) => true,
            (Error::Unavailable(a), Error::Unavailable(b)) => match (a, b) {
                (Some(x), Some(y)) => x@ == y@,
                (None, None) => true,
                _ => false,
            },
            (Error::NonExistent(a), Error::NonExistent(b)) => path_views(a@) == path_views(b@),
            (Error::NotSupported(a), Error::NotSupported(b)) => a == b,
            (Error::FfiNul(a), Error::FfiNul(b)) => a == b,
            (Error::FfiIntoString(a), Error::FfiIntoString(b)) => a@ == b@,
            (Error::FfiFromBytes(a), Error::FfiFromBytes(b)) => a == b,
            _ => false,
        }
    }

    /// A copy of this error: the same cause, with its payload copied.
    pub fn duplicate(&self) -> (r: Error)
        ensures
            r.same_as(self),
    {
        match self {
            Error::Generic(s) => Error::Generic(s.clone()),
            Error::Io(a) => Error::Io(share_io(a)),
            Error::NotImplemented => Error::NotImplemented,
            Error::Unavailable(o) => match o {
                Some(s) => Error::Unavailable(Some(s.clone())),
                None => Error::Unavailable(None),
            },
            Error::NonExistent(v) => {
                let mut out: Vec<String> = Vec::new();
                let mut i: usize = 0;
                while i < v.len()
                    invariant
                        0 <= i <= v.len(),
                        out@.len() == i,
                        forall|j: int| 0 <= j < i ==> out@[j]@ == v@[j]@,
                    decreases v.len() - i,
                {
                    out.push(v[i].clone());
                    i = i + 1;
                }
                proof {
                    assert(path_views(out@) =~= path_views(v@));
                }
                Error::NonExistent(out)
            },
            Error::NotSupported(c) => Error::NotSupported(*c),
            Error::FfiNul(n) => Error::FfiNul(*n),
            Error::FfiIntoString(b) => {
                let mut out: Vec<u8> = Vec::new();
                let mut i: usize = 0;
                while i < b.len()
                    invariant
                        0 <= i <= b.len(),
                        out@ == b@.subrange(0, i as int),
                    decreases b.len() - i,
                {
                    out.push(b[i]);
                    i = i + 1;
                    proof {
                        assert(out@ =~= b@.subrange(0, i as int));
                    }
                }
                proof {
                    assert(out@ =~= b@);
                }
                Error::FfiIntoString(out)
            },
            Error::FfiFromBytes(p) => Error::FfiFromBytes(*p),
        }
    }

    /// Classifies an I/O error, given whether it is of kind `NotFound`.
    ///
    /// A `NotFound` error becomes `NonExistent` with no paths; any other stays an I/O error.
    pub fn from_io_kind(err: std::io::Error, not_found: bool) -> (r: Error)
        ensures
            not_found ==> r is NonExistent && r->NonExistent_0@.len() == 0,
            !not_found ==> r is Io && *r->Io_0 == err,
    {
        if not_found {
            Error::NonExistent(Vec::new())
        } else {
            Error::Io(Arc::new(err))
        }
    }
}

impl From<std::io::Error> for Error {
    fn from(err: std::io::Error) -> (r: Error)
        ensures
            (r is NonExistent && r->NonExistent_0@.len() == 0) || (r is Io && *r->Io_0 == err),
    {
        let not_found = io_error_is_not_found(&err);
        Error::from_io_kind(err, not_found)
    }
}

/// Which variant comes out depends on the error's kind, which Verus cannot see here: the
/// method's own `ensures` states both outcomes, and `Error::from_io_kind` states it exactly.
impl vstd::std_specs::convert::FromSpecImpl<std::io::Error> for Error {
    open spec fn obeys_from_spec() -> bool {
        false
    }

    open spec fn from_spec(err: std::io::Error) -> Error {
        Error::Io(Arc::new(err))
    }
}

impl From<Capability> for Error {
    fn from(cap: Capability) -> (r: Error) {
        Error::NotSupported(cap)
    }
}

impl vstd::std_specs::convert::FromSpecImpl<Capability> for Error {
    open spec fn obeys_from_spec() -> bool {
        true
    }

    open spec fn from_spec(cap: Capability) -> Error {
        Error::NotSupported(cap)
    }
}

/// Which paths an initialisation error affects.
///
/// Where an error affects a subset of the paths, passing only the other paths again is
/// expected to be likely to succeed.
#[derive(Clone, Debug)]
pub enum ErrorWrap {
    /// An error about the backend itself, or in general.
    General(Error),
    /// An error that affects all the paths passed in.
    All(Error),
    /// A single error that affects some of the paths.
    Single(Error, Vec<String>),
    /// Several errors, each with the paths it affects. The subsets may overlap or be empty.
    Multiple(Vec<(Error, Vec<String>)>),
}

impl ErrorWrap {
    /// The causes that an error wrap holds, in order, without their paths.
    pub open spec fn causes(&self) -> Seq<Error> {
        match self {
            ErrorWrap::General(e) => seq![*e],
            ErrorWrap::All(e) => seq![*e],
            ErrorWrap::Single(e, _) => seq![*e],
            ErrorWrap::Multiple(v) => v@.map_values(|p: (Error, Vec<String>)| p.0),
        }
    }

    /// Reduces to the list of errors, discarding all path information.
    pub fn as_error_vec(&self) -> (r: Vec<&Error>)
        ensures
            r@.len() == self.causes().len(),
            forall|i: int| 0 <= i < r@.len() ==> *r@[i] == self.causes()[i],
    {
        match self {
            ErrorWrap::Multiple(ve) => {
                let mut out: Vec<&Error> = Vec::new();
                let mut i: usize = 0;
                while i < ve.len()
                    invariant
                        0 <= i <= ve.len(),
                        out@.len() == i,
                        forall|j: int| 0 <= j < i ==> *out@[j] == ve@[j].0,
                    decreases ve.len() - i,
                {
                    out.push(&ve[i].0);
                    i = i + 1;
                }
                out
            },
            ErrorWrap::General(err) => vec![err],
            ErrorWrap::All(err) => vec![err],
            ErrorWrap::Single(err, _) => vec![err],
        }
    }
}

impl From<Error> for ErrorWrap {
    fn from(err: Error) -> (r: ErrorWrap) {
        ErrorWrap::General(err)
    }
}

impl vstd::std_specs::convert::FromSpecImpl<Error> for ErrorWrap {
    open spec fn obeys_from_spec() -> bool {
        true
    }

    open spec fn from_spec(err: Error) -> ErrorWrap {
        ErrorWrap::General(err)
    }
}

impl<'a> From<&'a Error> for ErrorWrap {
    fn from(err: &'a Error) -> (r: ErrorWrap)
        ensures
            r is General,
            r->General_0.same_as(err),
    {
        ErrorWrap::General(err.duplicate())
    }
}

/// The copy is the same cause, but not promised to be the same value: no result is promised
/// through this impl, and the method's own `ensures` states it.
impl<'a> vstd::std_specs::convert::FromSpecImpl<&'a Error> for ErrorWrap {
    open spec fn obeys_from_spec() -> bool {
        false
    }

    open spec fn from_spec(err: &'a Error) -> ErrorWrap {
        ErrorWrap::General(*err)
    }
}

impl From<std::io::Error> for ErrorWrap {
    fn from(err: std::io::Error) -> (r: ErrorWrap)
        ensures
            r is General,
            (r->General_0 is NonExistent && r->General_0->NonExistent_0@.len() == 0) || (
            r->General_0 is Io && *r->General_0->Io_0 == err),
    {
        let e: Error = Error::from(err);
        ErrorWrap::General(e)
    }
}

/// As for `Error`, the method's own `ensures` states both outcomes.
impl vstd::std_specs::convert::FromSpecImpl<std::io::Error> for ErrorWrap {
    open spec fn obeys_from_spec() -> bool {
        false
    }

    open spec fn from_spec(err: std::io::Error) -> ErrorWrap {
        ErrorWrap::General(Error::Io(Arc::new(err)))
    }
}

impl From<Capability> for ErrorWrap {
    fn from(cap: Capability) -> (r: ErrorWrap) {
        ErrorWrap::General(Error::from(cap))
    }
}

impl vstd::std_specs::convert::FromSpecImpl<Capability> for ErrorWrap {
    open spec fn obeys_from_spec() -> bool {
        true
    }

    open spec fn from_spec(cap: Capability) -> ErrorWrap {
        ErrorWrap::General(Error::NotSupported(cap))
    }
}

/// Flattening a wrap keeps every cause, in order: one for `General`, `All` and `Single`,
/// and one per entry of `Multiple`.
pub proof fn lemma_error_vec_keeps_causes(w: ErrorWrap)
    ensures
        w is Multiple ==> w.causes().len() == w->Multiple_0@.len() && forall|i: int|
            0 <= i < w->Multiple_0@.len() ==> w.causes()[i] == w->Multiple_0@[i].0,
        w is General ==> w.causes() == seq![w->General_0],
        w is All ==> w.causes() == seq![w->All_0],
        w is Single ==> w.causes() == seq![w->Single_0],
{
}

} // verus!
