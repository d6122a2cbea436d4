use notify_inotify::capability::Capability;
use notify_inotify::error::{Error, ErrorWrap};

fn generic(s: &str) -> Error {
    Error::Generic(s.to_string())
}

fn is_generic(e: &Error, s: &str) -> bool {
    matches!(e, Error::Generic(g) if g == s)
}

#[test]
fn multiple_flattens_in_order() {
    let w = ErrorWrap::Multiple(vec![
        (generic("c1"), vec!["/a".to_string()]),
        (generic("c2"), vec![]),
        (generic("c3"), vec!["/a".to_string(), "/b".to_string()]),
    ]);
    let v = w.as_error_vec();
    assert_eq!(v.len(), 3);
    assert!(is_generic(v[0], "c1"));
    assert!(is_generic(v[1], "c2"));
    assert!(is_generic(v[2], "c3"));
}

#[test]
fn single_cause_wraps_flatten_to_one() {
    for w in [
        ErrorWrap::General(generic("g")),
        ErrorWrap::All(generic("g")),
        ErrorWrap::Single(generic("g"), vec!["/x".to_string()]),
    ] {
        let v = w.as_error_vec();
        assert_eq!(v.len(), 1);
        assert!(is_generic(v[0], "g"));
    }
}

#[test]
fn empty_multiple_flattens_to_nothing() {
    assert!(ErrorWrap::Multiple(vec![]).as_error_vec().is_empty());
}

#[test]
fn not_found_io_error_becomes_non_existent() {
    let e: Error = std::io::Error::new(std::io::ErrorKind::NotFound, "gone").into();
    assert!(matches!(e, Error::NonExistent(ref p) if p.is_empty()));
    let w: ErrorWrap = std::io::Error::new(std::io::ErrorKind::NotFound, "gone").into();
    assert!(matches!(w, ErrorWrap::General(Error::NonExistent(_))));
}

#[test]
fn other_io_error_stays_io() {
    let e: Error = std::io::Error::new(std::io::ErrorKind::PermissionDenied, "no").into();
    assert!(matches!(e, Error::Io(ref x) if x.kind() == std::io::ErrorKind::PermissionDenied));
    let k = Error::from_io_kind(std::io::Error::new(std::io::ErrorKind::Other, "x"), true);
    assert!(matches!(k, Error::NonExistent(_)));
}

#[test]
fn capability_becomes_not_supported() {
    let e: Error = Capability::WatchFiles.into();
    assert!(matches!(e, Error::NotSupported(Capability::WatchFiles)));
    let w: ErrorWrap = Capability::TrackRelated.into();
    assert!(matches!(w, ErrorWrap::General(Error::NotSupported(Capability::TrackRelated))));
    let g: ErrorWrap = generic("x").into();
    assert!(matches!(g, ErrorWrap::General(Error::Generic(_))));
}

#[test]
fn wrap_from_a_borrowed_error_copies_the_cause() {
    let e = Error::NonExistent(vec!["/a".to_string(), "/b".to_string()]);
    let w: ErrorWrap = (&e).into();
    match w {
        ErrorWrap::General(Error::NonExistent(p)) => {
            assert_eq!(p, vec!["/a".to_string(), "/b".to_string()])
        }
        other => panic!("unexpected {:?}", other),
    }
    let g = generic("why");
    let w: ErrorWrap = (&g).into();
    let v = w.as_error_vec();
    assert_eq!(v.len(), 1);
    assert!(is_generic(v[0], "why"));
}

#[test]
fn duplicate_keeps_every_payload() {
    let cases = vec![
        Error::Unavailable(Some("busy".to_string())),
        Error::Unavailable(None),
        Error::FfiNul(3),
        Error::FfiIntoString(vec![0xff, 0x41]),
        Error::FfiFromBytes(Some(2)),
        Error::NotSupported(Capability::WatchFolders),
    ];
    for e in cases {
        assert_eq!(format!("{:?}", e.duplicate()), format!("{:?}", e));
    }
}

#[test]
fn io_error_wrap_is_general_io() {
    let w: ErrorWrap = std::io::Error::new(std::io::ErrorKind::PermissionDenied, "no").into();
    assert!(matches!(w, ErrorWrap::General(Error::Io(_))));
    assert_eq!(w.as_error_vec().len(), 1);
}
