use uniform::temp_path::{
    create_retry_budget, create_should_retry, tmpname, CreateErrorKind, TempPath, NUM_RETRIES,
};

#[test]
fn from_path_does_not_keep() {
    let t = TempPath::from_path(String::from("/tmp/abc"));
    assert_eq!(t.path().as_str(), "/tmp/abc");
    assert!(!t.keeps_file());
}

#[test]
fn new_records_keep_flag() {
    let t = TempPath::new(String::from("/tmp/xyz"), true);
    assert_eq!(t.path().as_str(), "/tmp/xyz");
    assert!(t.keeps_file());
}

#[test]
fn persist_success_consumes_path() {
    let t = TempPath::from_path(String::from("/tmp/a"));
    assert!(t.persist(Ok(())).is_ok());
}

#[test]
fn persist_failure_hands_path_back() {
    let t = TempPath::from_path(String::from("/tmp/a"));
    let e = t.persist(Err(String::from("cross-device link"))).unwrap_err();
    assert_eq!(e.error, "cross-device link");
    assert_eq!(e.path.path().as_str(), "/tmp/a");
    assert!(!e.path.keeps_file());
}

#[test]
fn persist_noclobber_failure_hands_path_back() {
    let t = TempPath::new(String::from("/tmp/b"), true);
    let e = t.persist_noclobber(Err(String::from("already exists"))).unwrap_err();
    assert_eq!(e.error, "already exists");
    assert_eq!(e.path.path().as_str(), "/tmp/b");
    assert!(e.path.keeps_file());
}

#[test]
fn keep_returns_the_path() {
    let t = TempPath::from_path(String::from("/tmp/c"));
    assert_eq!(t.keep(Ok(())).unwrap(), "/tmp/c");

    let t = TempPath::from_path(String::from("/tmp/c"));
    let e = t.keep(Err(String::from("permission denied"))).unwrap_err();
    assert_eq!(e.error, "permission denied");
    assert_eq!(e.path.path().as_str(), "/tmp/c");
}

#[test]
fn tmpname_shape() {
    let name = tmpname(".tmp", ".txt", 10);
    assert_eq!(name.chars().count(), 4 + 10 + 4);
    assert!(name.starts_with(".tmp"));
    assert!(name.ends_with(".txt"));
    let middle: Vec<char> = name.chars().skip(4).take(10).collect();
    for c in middle {
        assert!(c.is_ascii_alphanumeric(), "not alphanumeric: {}", c);
    }
}

#[test]
fn tmpname_without_random_part() {
    let name = tmpname("exact", "", 0);
    assert_eq!(name, "exact");
}

#[test]
fn tmpname_varies() {
    // Two random names of useful length almost surely differ.
    let a = tmpname("", "", 16);
    let b = tmpname("", "", 16);
    assert_ne!(a, b);
}

#[test]
fn retry_budget() {
    assert_eq!(create_retry_budget(0), 1);
    assert_eq!(create_retry_budget(6), NUM_RETRIES);
    assert_eq!(NUM_RETRIES, 1 << 31);
}

#[test]
fn retry_decision() {
    assert!(create_should_retry(CreateErrorKind::AlreadyExists, 2));
    assert!(create_should_retry(CreateErrorKind::AddrInUse, 2));
    assert!(!create_should_retry(CreateErrorKind::Other, 2));
    assert!(!create_should_retry(CreateErrorKind::AlreadyExists, 1));
    assert!(!create_should_retry(CreateErrorKind::AddrInUse, 1));
    assert!(!create_should_retry(CreateErrorKind::Other, 1));
}
