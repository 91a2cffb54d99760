use remits::errors::Error;
use remits::manifest::Manifest;

#[test]
fn test_manifest_new() {
    let manifest = Manifest::new();
    assert_eq!(manifest.num_logs(), 0);
    assert_eq!(manifest.num_itrs(), 0);
}

#[test]
fn test_manifest_add_log() {
    let mut manifest = Manifest::new();
    manifest.add_log("test".into());
    manifest.add_log("test2".into());
    manifest.add_log("test3".into());
    assert!(manifest.contains_log("test"));
    assert!(manifest.contains_log("test2"));
    assert!(manifest.contains_log("test3"));
    assert_eq!(manifest.contains_log("test1"), false);

    // This second add_log is here to make sure code does not panic
    manifest.add_log("test".into());
}

#[test]
fn test_manifest_add_itr() {
    let mut manifest = Manifest::new();
    let _ = manifest.add_itr("test".into(), "fun".into(), "map".into(), "func".into());
    let _ = manifest.add_itr("test".into(), "fun2".into(), "map".into(), "func".into());
    let _ = manifest.add_itr("test".into(), "fun3".into(), "map".into(), "func".into());
    assert!(manifest.contains_itr("fun"));
    assert!(manifest.contains_itr("fun2"));
    assert!(manifest.contains_itr("fun3"));
    assert_eq!(manifest.contains_log("fun1"), false);

    let duplicate_error =
        manifest.add_itr("test".into(), "fun".into(), "map".into(), "func2".into());
    assert_eq!(
        format!("{:?}", duplicate_error),
        format!("Err(ItrExistsWithSameName)")
    );
}

#[test]
fn test_manifest_del_itr() {
    let mut manifest = Manifest::new();
    // Normal
    let _ = manifest.add_itr("test".into(), "fun".into(), "map".into(), "func".into());
    assert!(manifest.contains_itr("fun"));
    let _ = manifest.del_itr("test".into(), "fun".into());
    assert_eq!(manifest.contains_log("fun"), false);

    // Function doesnt exist log does
    let does_not_exist_error = manifest.del_itr("test".into(), "fun".into());
    assert_eq!(
        format!("{:?}", does_not_exist_error),
        format!("Err(ItrDoesNotExist)")
    );
    // Neither function or log exist
    let _ = manifest.add_itr("test".into(), "fun".into(), "map".into(), "func".into());

    let log_does_not_exist_error = manifest.del_itr("test1".into(), "fun".into());
    assert_eq!(
        format!("{:?}", log_does_not_exist_error),
        format!("Err(ItrDoesNotExist)")
    );
}

#[test]
fn add_log_twice_keeps_first_stamp() {
    let mut m = Manifest::new();
    m.add_log("orders".into());
    let first = m.log_created_at("orders");
    assert!(first.is_some());
    m.add_log("orders".into());
    assert_eq!(m.num_logs(), 1);
    assert_eq!(m.log_created_at("orders"), first);
}

#[test]
fn del_log_cascades_and_spares_others() {
    let mut m = Manifest::new();
    m.add_log("orders".into());
    m.add_log("billing".into());
    let _ = m.add_itr("orders".into(), "i1".into(), "map".into(), "f1".into());
    let _ = m.add_itr("orders".into(), "i2".into(), "map".into(), "f2".into());
    let _ = m.add_itr("billing".into(), "j".into(), "map".into(), "f3".into());
    m.del_log("orders".into());
    assert!(!m.contains_log("orders"));
    assert!(!m.contains_itr("i1"));
    assert!(!m.contains_itr("i2"));
    assert!(m.contains_log("billing"));
    assert!(m.contains_itr("j"));
    let j = m.get_itr("j").unwrap();
    assert_eq!(j.log, "billing");
    assert_eq!(j.kind, "map");
    assert_eq!(j.func, "f3");
}

#[test]
fn add_itr_identical_twice_is_idempotent() {
    let mut m = Manifest::new();
    let first = m.add_itr("orders".into(), "sum".into(), "Map".into(), "f1".into());
    let second = m.add_itr("orders".into(), "sum".into(), "Map".into(), "f1".into());
    assert_eq!(first, Ok(()));
    assert_eq!(second, Ok(()));
    assert_eq!(m.num_itrs(), 1);
    let stored = m.get_itr("sum").unwrap();
    assert_eq!(stored.log, "orders");
    assert_eq!(stored.kind, "Map");
    assert_eq!(stored.func, "f1");
}

#[test]
fn add_itr_conflicting_func_fails_and_keeps_stored_entry() {
    let mut m = Manifest::new();
    let first = m.add_itr("orders".into(), "sum".into(), "Map".into(), "f1".into());
    assert_eq!(first, Ok(()));
    let conflict = m.add_itr("orders".into(), "sum".into(), "Map".into(), "f2".into());
    assert_eq!(conflict, Err(Error::ItrExistsWithSameName));
    let stored = m.get_itr("sum").unwrap();
    assert_eq!(stored.func, "f1");
}

#[test]
fn del_itr_absent_is_not_found() {
    let mut m = Manifest::new();
    let missing = m.del_itr("orders".into(), "sum".into());
    assert_eq!(missing, Err(Error::ItrDoesNotExist));
}

#[test]
fn del_itr_wrong_log_is_not_found_and_entry_survives() {
    let mut m = Manifest::new();
    let _ = m.add_itr("orders".into(), "sum".into(), "Map".into(), "f1".into());
    let wrong = m.del_itr("billing".into(), "sum".into());
    assert_eq!(wrong, Err(Error::ItrDoesNotExist));
    let stored = m.get_itr("sum").unwrap();
    assert_eq!(stored.log, "orders");
    assert_eq!(stored.func, "f1");
}

#[test]
fn scenario_del_log_empties_everything() {
    let mut m = Manifest::new();
    m.add_log("orders".into());
    let _ = m.add_itr("orders".into(), "sum".into(), "Map".into(), "f1".into());
    m.del_log("orders".into());
    assert_eq!(m.num_logs(), 0);
    assert_eq!(m.num_itrs(), 0);
}

#[test]
fn scenario_wrong_log_delete_leaves_entry() {
    let mut m = Manifest::new();
    let _ = m.add_itr("orders".into(), "sum".into(), "Map".into(), "f1".into());
    let res = m.del_itr("billing".into(), "sum".into());
    assert_eq!(res, Err(Error::ItrDoesNotExist));
    assert!(m.contains_itr("sum"));
    let stored = m.get_itr("sum").unwrap();
    assert_eq!(stored.log, "orders");
}

#[test]
fn del_log_of_unknown_name_is_quiet() {
    let mut m = Manifest::new();
    m.add_log("orders".into());
    m.del_log("billing".into());
    assert!(m.contains_log("orders"));
    assert_eq!(m.num_logs(), 1);
}

#[test]
fn error_messages_name_their_cause() {
    assert_eq!(Error::ItrExistsWithSameName.message(), "itr exists with same name");
    assert_eq!(Error::ItrDoesNotExist.message(), "itr does not exist");
}
