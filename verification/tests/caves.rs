use caves::embedded::{interpret_lookup, interpret_write};
use caves::errors::Error;
use caves::res::{empty_ok, Res};
use caves::{Cave, DirStatus, FileCave, IoFailure, MemTable, MemoryCave};

fn _test_simple(b: Box<dyn Cave>) {
    let not_found_err = Err(Error::NotFound("test".to_string()));
    let value1 = Ok("value".as_bytes().to_vec());
    let value2 = Ok("value2".as_bytes().to_vec());
    let value3 = Ok("value3".as_bytes().to_vec());

    let res = b.get("test");
    assert_eq!(res, not_found_err);
    let res = b.delete("test");
    assert_eq!(res, not_found_err);
    let res = b.set("test", "value".as_bytes());
    assert_eq!(res, empty_ok());
    let res = b.get("test");
    assert_eq!(res, value1);
    let res = b.set("test", "value2".as_bytes());
    assert_eq!(res, empty_ok());
    let res = b.get("test");
    assert_eq!(res, value2);
    let res = b.delete("test");
    assert_eq!(res, empty_ok());
    let res = b.get("test");
    assert_eq!(res, not_found_err);
    let res = b.delete("test");
    assert_eq!(res, not_found_err);
    let res = b.set("test", "value3".as_bytes());
    assert_eq!(res, empty_ok());
    let res = b.get("test");
    assert_eq!(res, value3);
}

#[test]
fn test_memory_backend_simple() {
    let mb = MemoryCave::new();
    _test_simple(Box::new(mb))
}

#[test]
fn test_error_equality() {
    // NotFound errors are equal iff their names are equal.
    assert_eq!(
        Error::NotFound("a".to_string()),
        Error::NotFound("a".to_string())
    );
    assert_ne!(
        Error::NotFound("a".to_string()),
        Error::NotFound("b".to_string())
    );
    // Internal and Bug errors are equal within their kind, whatever the cause.
    assert_eq!(
        Error::Internal("one cause".to_string()),
        Error::Internal("another cause".to_string())
    );
    assert_eq!(
        Error::Bug("one cause".to_string()),
        Error::Bug("another cause".to_string())
    );
    // Different kinds are never equal.
    assert_ne!(
        Error::NotFound("a".to_string()),
        Error::Internal("a".to_string())
    );
    assert_ne!(
        Error::Internal("a".to_string()),
        Error::Bug("a".to_string())
    );
    assert_ne!(
        Error::Bug("a".to_string()),
        Error::NotFound("a".to_string())
    );
}

#[test]
fn test_internal_from_msg() {
    let e = Error::internal_from_msg("disk on fire".to_string());
    assert_eq!(e, Error::Internal("disk on fire".to_string()));
    assert_ne!(e, Error::NotFound("disk on fire".to_string()));
    assert_ne!(e, Error::Bug("disk on fire".to_string()));
}

#[test]
fn test_error_messages() {
    let e = Error::NotFound("test".to_string());
    assert_eq!(e.message(), "Key with name `test` was not found");
    let e = Error::Internal("disk on fire".to_string());
    assert_eq!(e.message(), "An internal error occurred: disk on fire");
    let e = Error::Bug("impossible state".to_string());
    assert_eq!(e.message(), "An unexpected error occurred: impossible state");
}

#[test]
fn test_empty_ok() {
    let r: Res = empty_ok();
    assert_eq!(r, Ok(Vec::new()));
}

#[test]
fn test_not_found_helper() {
    let b = MemoryCave::new();
    let r = b.not_found("missing");
    assert_eq!(r, Err(Error::NotFound("missing".to_string())));
}

#[test]
fn test_mem_table_fresh_key_absent() {
    let mut t = MemTable::new();
    assert_eq!(t.get("k"), Err(Error::NotFound("k".to_string())));
    assert_eq!(t.delete("k"), Err(Error::NotFound("k".to_string())));
}

#[test]
fn test_mem_table_set_then_get() {
    let mut t = MemTable::new();
    assert_eq!(t.set("k", &[1, 2, 3]), empty_ok());
    assert_eq!(t.get("k"), Ok(vec![1, 2, 3]));
    // A zero-length value is valid and distinct from "absent".
    assert_eq!(t.set("empty", &[]), empty_ok());
    assert_eq!(t.get("empty"), Ok(Vec::new()));
}

#[test]
fn test_mem_table_overwrite() {
    let mut t = MemTable::new();
    assert_eq!(t.set("k", &[1, 2, 3]), empty_ok());
    assert_eq!(t.set("k", &[9]), empty_ok());
    assert_eq!(t.get("k"), Ok(vec![9]));
}

#[test]
fn test_mem_table_delete_then_absent() {
    let mut t = MemTable::new();
    assert_eq!(t.set("k", &[7, 7]), empty_ok());
    assert_eq!(t.delete("k"), empty_ok());
    assert_eq!(t.get("k"), Err(Error::NotFound("k".to_string())));
    assert_eq!(t.delete("k"), Err(Error::NotFound("k".to_string())));
}

#[test]
fn test_file_cave_construction_failures() {
    // A path whose metadata cannot be read is an internal error.
    let r = FileCave::new(
        "nonexistent".to_string(),
        DirStatus::Unreadable("No such file or directory".to_string()),
    );
    assert_eq!(r.unwrap_err(), Error::Internal(String::new()));

    // A path that exists but is a regular file is an internal error.
    let r = FileCave::new("empty_file".to_string(), DirStatus::NotDirectory);
    assert_eq!(r.unwrap_err(), Error::Internal(String::new()));
}

#[test]
fn test_file_cave_create_path() {
    let fc = FileCave::new("some/dir".to_string(), DirStatus::Directory).unwrap();
    assert_eq!(fc.create_path("test"), "some/dir/test".to_string());
}

#[test]
fn test_convert_io_error() {
    let e = FileCave::convert_io_error(IoFailure::Absent, "test");
    assert_eq!(e, Error::NotFound("test".to_string()));
    let e = FileCave::convert_io_error(IoFailure::Other("permission denied".to_string()), "test");
    assert_eq!(e, Error::Internal(String::new()));
}

#[test]
fn test_interpret_lookup() {
    let r = interpret_lookup("test", Ok(Some(vec![4, 5])));
    assert_eq!(r, Ok(vec![4, 5]));
    let r = interpret_lookup("test", Ok(None));
    assert_eq!(r, Err(Error::NotFound("test".to_string())));
    let r = interpret_lookup("test", Err("corrupted".to_string()));
    assert_eq!(r, Err(Error::Internal(String::new())));
}

#[test]
fn test_interpret_write() {
    let r = interpret_write(Ok(()));
    assert_eq!(r, empty_ok());
    let r = interpret_write(Err("no space left".to_string()));
    assert_eq!(r, Err(Error::Internal(String::new())));
}
