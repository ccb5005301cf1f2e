use gc_handle::error::{Error, Kind};
use gc_handle::raw::{same_handle, Raw};

#[test]
fn same_handle_compares_objects() {
    assert!(same_handle(Raw { object: 3 }, Raw { object: 3 }));
    assert!(!same_handle(Raw { object: 3 }, Raw { object: 4 }));
    assert!(!same_handle(Raw { object: 0 }, Raw { object: u64::MAX }));
    let h = Raw { object: 9 };
    let copy = h;
    assert!(same_handle(h, copy));
}

#[test]
fn error_keeps_kind_and_message() {
    let e = Error::new(Kind::TypeError, "not a function");
    assert_eq!(e.kind(), Kind::TypeError);
    assert_eq!(e.message(), "not a function");
    assert_eq!(e, Error::new(Kind::TypeError, "not a function"));
    assert_ne!(e, Error::new(Kind::TypeError, "type error"));
}

#[test]
fn type_error_is_named_as_the_host_names_it() {
    assert_eq!(Kind::TypeError.name(), "TypeError");
}
