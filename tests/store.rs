use rust_core::cell::FileSlot;
use rust_core::error::FileError;
use rust_core::id::{FileId, PackageSpec, PackageVersion};
use rust_core::source::decode_utf8;
use rust_core::world::{project_root, system_path, SystemWorld};

fn world() -> SystemWorld {
    SystemWorld::new(".".to_string(), "= Hello".to_string())
}

#[test]
fn main_source_comes_from_memory() {
    let mut w = world();
    let main = w.main().duplicate();
    for _ in 0..3 {
        match w.begin_source(&main) {
            Some(Ok(s)) => {
                assert_eq!(s.text, "= Hello");
                assert_eq!(s.object, 0);
            }
            _ => panic!("the main document must come from memory"),
        }
        w.reset_pass();
    }
    assert!(w.slots.is_empty());
}

#[test]
fn main_bytes_come_from_memory() {
    let mut w = SystemWorld::new("/no/such/root".to_string(), "= Hi".to_string());
    let main = w.main().duplicate();
    match w.begin_file(&main) {
        Some(Ok(b)) => assert_eq!(b, b"= Hi".to_vec()),
        _ => panic!("the main document must come from memory"),
    }
}

#[test]
fn first_resolution_asks_for_a_read() {
    let mut w = world();
    let id = FileId::new("/a.typ".to_string());
    assert!(w.begin_source(&id).is_none());
    let s = w.finish_source(&id, Ok(b"abc".to_vec())).unwrap();
    assert_eq!(s.text, "abc");
    assert_eq!(s.object, 1);
    assert_eq!(w.next_object, 2);
}

#[test]
fn second_resolution_in_a_pass_needs_no_read() {
    let mut w = world();
    let id = FileId::new("/a.typ".to_string());
    assert!(w.begin_source(&id).is_none());
    let first = w.finish_source(&id, Ok(b"one".to_vec())).unwrap();
    // The file could have changed on disk by now: no read is asked for.
    match w.begin_source(&id) {
        Some(Ok(s)) => {
            assert_eq!(s.text, first.text);
            assert_eq!(s.object, first.object);
        }
        _ => panic!("expected the cached source"),
    }
}

#[test]
fn unchanged_content_keeps_the_object() {
    let mut w = world();
    let id = FileId::new("/a.typ".to_string());
    assert!(w.begin_source(&id).is_none());
    let first = w.finish_source(&id, Ok(b"same".to_vec())).unwrap();
    w.reset_pass();
    assert!(w.begin_source(&id).is_none());
    let again = w.finish_source(&id, Ok(b"same".to_vec())).unwrap();
    assert_eq!(again.text, "same");
    assert_eq!(again.object, first.object);
    assert_eq!(w.next_object, 2);
}

#[test]
fn changed_content_replaces_text_in_place() {
    let mut w = world();
    let id = FileId::new("/a.typ".to_string());
    assert!(w.begin_source(&id).is_none());
    let first = w.finish_source(&id, Ok(b"before".to_vec())).unwrap();
    w.reset_pass();
    assert!(w.begin_source(&id).is_none());
    let after = w.finish_source(&id, Ok(b"after".to_vec())).unwrap();
    assert_eq!(after.text, "after");
    assert_eq!(after.object, first.object);
    assert_eq!(w.next_object, 2);
}

#[test]
fn changed_bytes_are_returned() {
    let mut w = world();
    let id = FileId::new("/img.png".to_string());
    assert!(w.begin_file(&id).is_none());
    assert_eq!(w.finish_file(&id, Ok(vec![1, 2, 3])).unwrap(), vec![1, 2, 3]);
    w.reset_pass();
    assert!(w.begin_file(&id).is_none());
    assert_eq!(w.finish_file(&id, Ok(vec![1, 2, 3])).unwrap(), vec![1, 2, 3]);
    w.reset_pass();
    assert!(w.begin_file(&id).is_none());
    assert_eq!(w.finish_file(&id, Ok(vec![4, 5])).unwrap(), vec![4, 5]);
}

#[test]
fn missing_file_error_is_cached() {
    let mut w = world();
    let id = FileId::new("/missing.typ".to_string());
    let err = FileError::NotFound("./missing.typ".to_string());
    assert!(w.begin_source(&id).is_none());
    assert_eq!(w.finish_source(&id, Err(err.duplicate())).unwrap_err(), err);
    match w.begin_source(&id) {
        Some(Err(e)) => assert_eq!(e, err),
        _ => panic!("expected the cached error"),
    }
    w.reset_pass();
    assert!(w.begin_source(&id).is_none());
    assert_eq!(w.finish_source(&id, Err(err.duplicate())).unwrap_err(), err);
}

#[test]
fn changed_error_replaces_the_cached_one() {
    let mut w = world();
    let id = FileId::new("/x.typ".to_string());
    assert!(w.begin_source(&id).is_none());
    let _ = w.finish_source(&id, Err(FileError::NotFound("./x.typ".to_string())));
    w.reset_pass();
    assert!(w.begin_source(&id).is_none());
    assert_eq!(w.finish_source(&id, Err(FileError::IsDirectory)).unwrap_err(), FileError::IsDirectory);
}

#[test]
fn error_then_success_builds_a_new_object() {
    let mut w = world();
    let id = FileId::new("/a.typ".to_string());
    assert!(w.begin_source(&id).is_none());
    let s = w.finish_source(&id, Ok(b"x".to_vec())).unwrap();
    assert_eq!(s.object, 1);
    w.reset_pass();
    assert!(w.begin_source(&id).is_none());
    assert_eq!(w.finish_source(&id, Ok(vec![0xff])).unwrap_err(), FileError::InvalidUtf8);
    w.reset_pass();
    assert!(w.begin_source(&id).is_none());
    let t = w.finish_source(&id, Ok(b"y".to_vec())).unwrap();
    assert_eq!(t.text, "y");
    assert_eq!(t.object, 2);
}

#[test]
fn slots_are_kept_per_identity() {
    let mut w = world();
    let a = FileId::new("/a.typ".to_string());
    let b = FileId::new("/b.typ".to_string());
    assert!(w.begin_source(&a).is_none());
    let sa = w.finish_source(&a, Ok(b"A".to_vec())).unwrap();
    assert!(w.begin_source(&b).is_none());
    let sb = w.finish_source(&b, Ok(b"B".to_vec())).unwrap();
    assert_ne!(sa.object, sb.object);
    assert_eq!(w.slots.len(), 2);
    assert!(w.begin_source(&a).is_some());
    assert_eq!(w.slots.len(), 2);
}

#[test]
fn decode_strips_byte_order_mark() {
    assert_eq!(decode_utf8(&[0xEF, 0xBB, 0xBF, b'h', b'i']).unwrap(), "hi");
    assert_eq!(decode_utf8(b"plain").unwrap(), "plain");
    assert_eq!(decode_utf8(&[]).unwrap(), "");
}

#[test]
fn decode_rejects_invalid_utf8() {
    assert_eq!(decode_utf8(&[0xff, 0xfe]).unwrap_err(), FileError::InvalidUtf8);
}

#[test]
fn path_inside_root() {
    let id = FileId::new("/chapters/one.typ".to_string());
    assert_eq!(system_path(&".".to_string(), &id, None).unwrap(), "./chapters/one.typ");
}

#[test]
fn path_climbing_out_is_denied() {
    let id = FileId::new("../secret.typ".to_string());
    assert_eq!(system_path(&"proj".to_string(), &id, None).unwrap_err(), FileError::AccessDenied);
}

fn package() -> PackageSpec {
    PackageSpec {
        namespace: "preview".to_string(),
        name: "example".to_string(),
        version: PackageVersion { major: 0, minor: 1, patch: 0 },
    }
}

#[test]
fn path_inside_package() {
    let id = FileId::in_package(package(), "/lib.typ".to_string());
    let dir = Ok("/cache/preview/example/0.1.0".to_string());
    assert_eq!(
        system_path(&".".to_string(), &id, Some(dir)).unwrap(),
        "/cache/preview/example/0.1.0/lib.typ"
    );
}

#[test]
fn package_failure_is_passed_on() {
    let id = FileId::in_package(package(), "/lib.typ".to_string());
    let err = FileError::Package("download failed".to_string());
    assert_eq!(system_path(&".".to_string(), &id, Some(Err(err.duplicate()))).unwrap_err(), err);
}

#[test]
fn identities_compare_by_value() {
    let a = FileId::in_package(package(), "/lib.typ".to_string());
    let b = FileId::in_package(package(), "/lib.typ".to_string());
    let c = FileId::new("/lib.typ".to_string());
    assert!(a.same(&b));
    assert!(!a.same(&c));
    assert!(!c.same(&FileId::new_fake("/lib.typ".to_string())));
}

#[test]
fn root_defaults_to_current_directory() {
    assert_eq!(project_root(None), ".");
    assert_eq!(project_root(Some(String::new())), ".");
    assert_eq!(project_root(Some("docs".to_string())), "docs");
}

#[test]
fn initialized_cell_answers_in_its_pass() {
    let mut slot = FileSlot::new(FileId::new("/a.typ".to_string()));
    slot.file.init(vec![9, 9]);
    match slot.begin_file() {
        Some(Ok(b)) => assert_eq!(b, vec![9, 9]),
        _ => panic!("expected the initial bytes"),
    }
    slot.reset();
    assert!(slot.begin_file().is_none());
}
